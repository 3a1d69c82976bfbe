//! Payload attributes of locally mined blocks, payload well-formedness before and after the
//! `Prague` fork, and the merging of a batch of blocks into one big block.

use vstd::prelude::*;
use std::sync::Arc;
use crate::random::{random_address, random_hash};

verus! {

/// When the forks that change payload attributes activate, by timestamp; `None` for a fork
/// that is not scheduled.
#[derive(Clone, Copy, Debug, PartialEq, Eq, Structural)]
pub struct ForkSchedule {
    /// Activation time of `Shanghai` (withdrawals).
    pub shanghai_time: Option<u64>,
    /// Activation time of `Cancun` (parent beacon block root).
    pub cancun_time: Option<u64>,
    /// Activation time of `Amsterdam` (slot numbers).
    pub amsterdam_time: Option<u64>,
}

/// Whether a fork with the given activation time is active at `timestamp`.
pub open spec fn fork_active(activation: Option<u64>, timestamp: u64) -> bool {
    activation matches Some(t) && t <= timestamp
}

fn is_active_at(activation: Option<u64>, timestamp: u64) -> (r: bool)
    ensures
        r == fork_active(activation, timestamp),
{
    match activation {
        Some(t) => t <= timestamp,
        None => false,
    }
}

/// Attributes of a locally built payload.
#[derive(Clone, Debug, PartialEq, Eq)]
pub struct SilPayloadAttributes {
    /// Timestamp of the block.
    pub timestamp: u64,
    /// Randomness of the block.
    pub prev_randao: [u8; 32],
    /// Fee recipient of the block.
    pub suggested_fee_recipient: [u8; 20],
    /// Withdrawals, present (and empty) once withdrawals exist.
    pub withdrawals: Option<Vec<u64>>,
    /// Parent beacon block root, present once it exists.
    pub parent_beacon_block_root: Option<[u8; 32]>,
    /// Slot number, present (and zero) once slot numbers exist.
    pub slot_number: Option<u64>,
}

/// The attributes builder for locally mined payloads.
#[derive(Debug)]
pub struct LocalPayloadAttributesBuilder<C> {
    /// The chain specification.
    pub chain_spec: Arc<C>,
    /// Whether timestamps must increase from block to block.
    pub enforce_increasing_timestamp: bool,
}

impl<C> LocalPayloadAttributesBuilder<C> {
    /// Creates a builder that enforces increasing timestamps.
    pub fn new(chain_spec: Arc<C>) -> (r: LocalPayloadAttributesBuilder<C>)
        ensures
            r.chain_spec == chain_spec,
            r.enforce_increasing_timestamp,
    {
        LocalPayloadAttributesBuilder { chain_spec, enforce_increasing_timestamp: true }
    }

    /// The same builder, without enforcing increasing timestamps.
    pub fn without_increasing_timestamp(self) -> (r: LocalPayloadAttributesBuilder<C>)
        ensures
            r.chain_spec == self.chain_spec,
            !r.enforce_increasing_timestamp,
    {
        LocalPayloadAttributesBuilder { chain_spec: self.chain_spec, enforce_increasing_timestamp: false }
    }
}

/// The timestamp of a locally built payload: the current time, raised to one past the parent
/// where timestamps must increase.
pub open spec fn payload_timestamp(enforce: bool, parent_timestamp: u64, now: u64) -> u64 {
    if enforce {
        let next = if parent_timestamp == u64::MAX {
            u64::MAX
        } else {
            (parent_timestamp + 1) as u64
        };
        if next >= now {
            next
        } else {
            now
        }
    } else {
        now
    }
}

/// Whether `r` holds the attributes of a payload built on a parent with the given timestamp
/// at the time `now`, whatever its random fields: which optional fields are present follows
/// the forks active at the chosen timestamp.
pub open spec fn payload_attributes_of(
    builder: LocalPayloadAttributesBuilder<ForkSchedule>,
    parent_timestamp: u64,
    now: u64,
    r: SilPayloadAttributes,
) -> bool {
    let spec = *builder.chain_spec;
    &&& r.timestamp == payload_timestamp(builder.enforce_increasing_timestamp, parent_timestamp, now)
    &&& r.withdrawals is Some <==> fork_active(spec.shanghai_time, r.timestamp)
    &&& r.withdrawals matches Some(w) ==> w@.len() == 0
    &&& r.parent_beacon_block_root is Some <==> fork_active(spec.cancun_time, r.timestamp)
    &&& r.slot_number == (if fork_active(spec.amsterdam_time, r.timestamp) {
        Some(0u64)
    } else {
        None
    })
}

impl LocalPayloadAttributesBuilder<ForkSchedule> {
    /// Builds the attributes of a payload on top of a parent with the given timestamp, at the
    /// current time `now` (in seconds), with fresh random randomness, fee recipient and
    /// parent beacon block root.
    pub fn build(&self, parent_timestamp: u64, now: u64) -> (r: SilPayloadAttributes)
        ensures
            payload_attributes_of(*self, parent_timestamp, now, r),
    {
        let prev_randao = random_hash();
        let suggested_fee_recipient = random_address();
        let parent_beacon_block_root = random_hash();
        self.attributes_with(
            parent_timestamp,
            now,
            prev_randao,
            suggested_fee_recipient,
            parent_beacon_block_root,
        )
    }

    /// Builds the attributes of a payload on top of a parent with the given timestamp, at the
    /// current time `now`, with the given random values.
    pub fn attributes_with(
        &self,
        parent_timestamp: u64,
        now: u64,
        prev_randao: [u8; 32],
        suggested_fee_recipient: [u8; 20],
        parent_beacon_block_root: [u8; 32],
    ) -> (r: SilPayloadAttributes)
        ensures
            payload_attributes_of(*self, parent_timestamp, now, r),
            r.prev_randao == prev_randao,
            r.suggested_fee_recipient == suggested_fee_recipient,
            r.parent_beacon_block_root matches Some(root) ==> root == parent_beacon_block_root,
    {
        let mut timestamp = now;
        if self.enforce_increasing_timestamp {
            let next = parent_timestamp.saturating_add(1);
            if next >= timestamp {
                timestamp = next;
            }
        }
        let spec: &ForkSchedule = &self.chain_spec;
        SilPayloadAttributes {
            timestamp,
            prev_randao,
            suggested_fee_recipient,
            withdrawals: if is_active_at(spec.shanghai_time, timestamp) {
                Some(Vec::new())
            } else {
                None
            },
            parent_beacon_block_root: if is_active_at(spec.cancun_time, timestamp) {
                Some(parent_beacon_block_root)
            } else {
                None
            },
            slot_number: if is_active_at(spec.amsterdam_time, timestamp) {
                Some(0)
            } else {
                None
            },
        }
    }
}

/// The timestamp of a locally built payload is the current time, unless timestamps must
/// increase and the parent is not older than now: then it is one past the parent (the largest
/// timestamp where the parent already holds it). It is never before now.
pub proof fn lemma_payload_timestamp(enforce: bool, parent_timestamp: u64, now: u64)
    ensures
        !enforce ==> payload_timestamp(enforce, parent_timestamp, now) == now,
        enforce && parent_timestamp < now ==> payload_timestamp(enforce, parent_timestamp, now)
            == now,
        enforce && now <= parent_timestamp && parent_timestamp < u64::MAX ==> payload_timestamp(
            enforce,
            parent_timestamp,
            now,
        ) == parent_timestamp + 1,
        enforce && parent_timestamp == u64::MAX ==> payload_timestamp(
            enforce,
            parent_timestamp,
            now,
        ) == u64::MAX,
        payload_timestamp(enforce, parent_timestamp, now) >= now,
{
}

/// Timestamps of payloads built with increasing timestamps enforced move forward, unless the
/// parent is already at the largest timestamp.
pub proof fn lemma_payload_timestamp_increases(parent_timestamp: u64, now: u64)
    requires
        parent_timestamp < u64::MAX,
    ensures
        payload_timestamp(true, parent_timestamp, now) > parent_timestamp,
        payload_timestamp(true, parent_timestamp, now) >= now,
{
}

/// Errors of payload well-formedness.
#[derive(Clone, Copy, Debug, PartialEq, Eq, Structural)]
pub enum PayloadError {
    /// `Prague` sidecar fields arrived before `Prague`.
    PrePragueBlockRequests,
    /// A `SIP-7702` transaction arrived before `Prague`.
    PrePragueBlockWithEip7702Transactions,
}

/// The type byte of an `SIP-7702` transaction.
pub const SIP7702_TX_TYPE: u8 = 4;

/// Whether some transaction of the list is an `SIP-7702` transaction.
pub open spec fn has_eip7702(tx_types: Seq<u8>) -> bool {
    exists|i: int| 0 <= i < tx_types.len() && tx_types[i] == SIP7702_TX_TYPE
}

/// Checks that `Prague` sidecar fields are absent unless `Prague` is active.
pub fn ensure_well_formed_sidecar_fields(has_prague_fields: bool, is_prague_active: bool) -> (r:
    Result<(), PayloadError>)
    ensures
        r == (if !is_prague_active && has_prague_fields {
            Err::<(), PayloadError>(PayloadError::PrePragueBlockRequests)
        } else {
            Ok::<(), PayloadError>(())
        }),
{
    if !is_prague_active && has_prague_fields {
        return Err(PayloadError::PrePragueBlockRequests);
    }
    Ok(())
}

/// Checks that the transactions (given by their type bytes) hold no `SIP-7702` transaction
/// unless `Prague` is active.
pub fn ensure_well_formed_transactions_field(tx_types: &[u8], is_prague_active: bool) -> (r: Result<
    (),
    PayloadError,
>)
    ensures
        r == (if !is_prague_active && has_eip7702(tx_types@) {
            Err::<(), PayloadError>(PayloadError::PrePragueBlockWithEip7702Transactions)
        } else {
            Ok::<(), PayloadError>(())
        }),
{
    if is_prague_active {
        return Ok(());
    }
    let mut i: usize = 0;
    while i < tx_types.len()
        invariant
            !is_prague_active,
            i <= tx_types.len(),
            forall|j: int| 0 <= j < i ==> tx_types@[j] != SIP7702_TX_TYPE,
        decreases tx_types.len() - i,
    {
        if tx_types[i] == SIP7702_TX_TYPE {
            assert(tx_types@[i as int] == SIP7702_TX_TYPE);
            return Err(PayloadError::PrePragueBlockWithEip7702Transactions);
        }
        i = i + 1;
    }
    Ok(())
}

/// Checks the sidecar fields, then the transactions, against `Prague` activation.
pub fn ensure_well_formed_fields(tx_types: &[u8], has_prague_fields: bool, is_prague_active: bool)
    -> (r: Result<(), PayloadError>)
    ensures
        r == (if !is_prague_active && has_prague_fields {
            Err::<(), PayloadError>(PayloadError::PrePragueBlockRequests)
        } else if !is_prague_active && has_eip7702(tx_types@) {
            Err::<(), PayloadError>(PayloadError::PrePragueBlockWithEip7702Transactions)
        } else {
            Ok::<(), PayloadError>(())
        }),
{
    ensure_well_formed_sidecar_fields(has_prague_fields, is_prague_active)?;
    ensure_well_formed_transactions_field(tx_types, is_prague_active)
}

/// What the merge of a batch of blocks reads and writes of a block.
#[derive(Clone, Debug, PartialEq, Eq)]
pub struct BlockSummary {
    /// Block number.
    pub number: u64,
    /// Block hash.
    pub hash: [u8; 32],
    /// Parent hash.
    pub parent_hash: [u8; 32],
    /// Gas used.
    pub gas_used: u64,
    /// Gas limit.
    pub gas_limit: u64,
    /// The transactions, by an id of the caller's choosing.
    pub transactions: Vec<u64>,
}

/// The total gas used by the blocks.
pub open spec fn total_gas_used(blocks: Seq<BlockSummary>) -> int
    decreases blocks.len(),
{
    if blocks.len() == 0 {
        0
    } else {
        total_gas_used(blocks.drop_last()) + blocks.last().gas_used
    }
}

/// The total gas limit of the blocks.
pub open spec fn total_gas_limit(blocks: Seq<BlockSummary>) -> int
    decreases blocks.len(),
{
    if blocks.len() == 0 {
        0
    } else {
        total_gas_limit(blocks.drop_last()) + blocks.last().gas_limit
    }
}

/// The transactions of the blocks, in order.
pub open spec fn all_transactions(blocks: Seq<BlockSummary>) -> Seq<u64>
    decreases blocks.len(),
{
    if blocks.len() == 0 {
        Seq::empty()
    } else {
        all_transactions(blocks.drop_last()) + blocks.last().transactions@
    }
}

proof fn lemma_totals_prefix(blocks: Seq<BlockSummary>, i: int)
    requires
        0 <= i <= blocks.len(),
    ensures
        total_gas_used(blocks.take(i)) <= total_gas_used(blocks),
        total_gas_limit(blocks.take(i)) <= total_gas_limit(blocks),
    decreases blocks.len() - i,
{
    if i < blocks.len() {
        lemma_totals_prefix(blocks, i + 1);
        assert(blocks.take(i + 1).drop_last() =~= blocks.take(i));
    } else {
        assert(blocks.take(i) =~= blocks);
    }
}

/// Merges a batch of blocks, executed one after the other, into one big block: the last block,
/// keeping its hash, with the given number, the parent of the first block as parent, the gas used and gas limits
/// summed over the batch, and all transactions of the batch in order.
pub fn merge_blocks(blocks: Vec<BlockSummary>, block_number: u64) -> (r: BlockSummary)
    requires
        blocks@.len() > 0,
        total_gas_used(blocks@) <= u64::MAX,
        total_gas_limit(blocks@) <= u64::MAX,
    ensures
        r.number == block_number,
        r.hash == blocks@[blocks@.len() - 1].hash,
        r.parent_hash == blocks@[0].parent_hash,
        r.gas_used == total_gas_used(blocks@),
        r.gas_limit == total_gas_limit(blocks@),
        r.transactions@ == all_transactions(blocks@),
{
    let ghost all = blocks@;
    let n = blocks.len();
    let parent_hash = blocks[0].parent_hash;
    let hash = blocks[n - 1].hash;
    let mut gas_used: u64 = 0;
    let mut gas_limit: u64 = 0;
    let mut transactions: Vec<u64> = Vec::new();
    let mut i: usize = 0;
    let mut rest = blocks;
    while i < n
        invariant
            n == all.len(),
            i <= n,
            rest@ == all.subrange(i as int, n as int),
            gas_used == total_gas_used(all.take(i as int)),
            gas_limit == total_gas_limit(all.take(i as int)),
            transactions@ == all_transactions(all.take(i as int)),
            total_gas_used(all) <= u64::MAX,
            total_gas_limit(all) <= u64::MAX,
        decreases n - i,
    {
        let b = rest.remove(0);
        proof {
            assert(b == all[i as int]);
            assert(all.take(i + 1).drop_last() =~= all.take(i as int));
            assert(all.take(i + 1).last() == b);
            lemma_totals_prefix(all, i + 1);
        }
        gas_used = gas_used + b.gas_used;
        gas_limit = gas_limit + b.gas_limit;
        let mut k: usize = 0;
        let ghost start = transactions@;
        while k < b.transactions.len()
            invariant
                k <= b.transactions.len(),
                transactions@ == start + b.transactions@.subrange(0, k as int),
            decreases b.transactions.len() - k,
        {
            transactions.push(b.transactions[k]);
            k = k + 1;
            assert(transactions@ =~= start + b.transactions@.subrange(0, k as int));
        }
        assert(b.transactions@.subrange(0, k as int) =~= b.transactions@);
        i = i + 1;
        assert(rest@ =~= all.subrange(i as int, n as int));
    }
    assert(all.take(n as int) =~= all);
    BlockSummary { number: block_number, hash, parent_hash, gas_used, gas_limit, transactions }
}

} // verus!
