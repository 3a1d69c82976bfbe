//! The decisions of building a local pending block: the environment of the next block, which
//! pool transactions fit, how gas is counted, and when a cached pending block can be reused.

use vstd::prelude::*;
use crate::bytes::{copy_bytes, hash_eq};
use crate::random::random_hash;

verus! {

/// The fields of a parent header that the next block's environment is derived from.
#[derive(Clone, Debug, PartialEq, Eq)]
pub struct ParentHeader {
    /// Timestamp of the parent.
    pub timestamp: u64,
    /// Beneficiary of the parent.
    pub beneficiary: [u8; 20],
    /// Gas limit of the parent.
    pub gas_limit: u64,
    /// Parent beacon block root of the parent, where the fork that has it is active.
    pub parent_beacon_block_root: Option<[u8; 32]>,
    /// Withdrawals root of the parent, where the fork that has it is active.
    pub withdrawals_root: Option<[u8; 32]>,
    /// Extra data of the parent.
    pub extra_data: Vec<u8>,
    /// Slot number of the parent, where the fork that has it is active.
    pub slot_number: Option<u64>,
}

/// The attributes of the next block that a pending block is built with.
#[derive(Clone, Debug, PartialEq, Eq)]
pub struct NextBlockEnvAttributes {
    /// Timestamp of the next block.
    pub timestamp: u64,
    /// Fee recipient of the next block.
    pub suggested_fee_recipient: [u8; 20],
    /// Randomness of the next block.
    pub prev_randao: [u8; 32],
    /// Gas limit of the next block.
    pub gas_limit: u64,
    /// Parent beacon block root of the next block.
    pub parent_beacon_block_root: Option<[u8; 32]>,
    /// Withdrawals of the next block: `Some` (and empty) where the parent has a withdrawals
    /// root.
    pub withdrawals: Option<Vec<u64>>,
    /// Extra data of the next block.
    pub extra_data: Vec<u8>,
    /// Slot number of the next block.
    pub slot_number: Option<u64>,
}

/// How many seconds after its parent a pending block is stamped.
pub const PENDING_BLOCK_INTERVAL: u64 = 12;

/// `a + b`, or `u64::MAX` where that does not fit.
pub open spec fn sat_add(a: u64, b: u64) -> u64 {
    if a + b > u64::MAX {
        u64::MAX
    } else {
        (a + b) as u64
    }
}

/// Whether every byte of a hash is zero.
pub open spec fn is_zero_hash(h: [u8; 32]) -> bool {
    forall|i: int| 0 <= i < 32 ==> h@[i] == 0
}

/// The parent beacon block root of a pending block: none before the fork that has it; where
/// the parent has one, the override if one is given, else the zero hash.
pub open spec fn pending_beacon_root_ok(
    parent_root: Option<[u8; 32]>,
    override_root: Option<[u8; 32]>,
    r: Option<[u8; 32]>,
) -> bool {
    match parent_root {
        None => r is None,
        Some(_) => match override_root {
            Some(o) => r == Some(o),
            None => r matches Some(h) && is_zero_hash(h),
        },
    }
}

/// Whether `r` holds the attributes of a pending block on top of `parent`, whatever its
/// randomness: twelve seconds later, same beneficiary, gas limit and extra data, the next slot,
/// empty withdrawals and a beacon root where the parent has them, the override replacing the
/// zero beacon root only where the parent has one.
pub open spec fn pending_env_of(
    parent: ParentHeader,
    beacon_root_override: Option<[u8; 32]>,
    r: NextBlockEnvAttributes,
) -> bool {
    &&& r.timestamp == sat_add(parent.timestamp, PENDING_BLOCK_INTERVAL)
    &&& r.suggested_fee_recipient == parent.beneficiary
    &&& r.gas_limit == parent.gas_limit
    &&& pending_beacon_root_ok(
        parent.parent_beacon_block_root,
        beacon_root_override,
        r.parent_beacon_block_root,
    )
    &&& r.withdrawals is Some <==> parent.withdrawals_root is Some
    &&& r.withdrawals matches Some(w) ==> w@.len() == 0
    &&& r.extra_data@ == parent.extra_data@
    &&& r.slot_number == (match parent.slot_number {
        Some(s) => Some(sat_add(s, 1)),
        None => None,
    })
}

impl NextBlockEnvAttributes {
    /// The attributes of a pending block on top of `parent`, with fresh randomness.
    pub fn build_pending_env(parent: &ParentHeader, beacon_root_override: Option<[u8; 32]>) -> (r:
        NextBlockEnvAttributes)
        ensures
            pending_env_of(*parent, beacon_root_override, r),
    {
        let prev_randao = random_hash();
        NextBlockEnvAttributes::pending_env_with_randao(parent, beacon_root_override, prev_randao)
    }

    /// The attributes of a pending block on top of `parent`, with the given randomness.
    pub fn pending_env_with_randao(
        parent: &ParentHeader,
        beacon_root_override: Option<[u8; 32]>,
        prev_randao: [u8; 32],
    ) -> (r: NextBlockEnvAttributes)
        ensures
            pending_env_of(*parent, beacon_root_override, r),
            r.prev_randao == prev_randao,
    {
        let mut attributes = NextBlockEnvAttributes {
            timestamp: parent.timestamp.saturating_add(PENDING_BLOCK_INTERVAL),
            suggested_fee_recipient: parent.beneficiary,
            prev_randao,
            gas_limit: parent.gas_limit,
            parent_beacon_block_root: match parent.parent_beacon_block_root {
                Some(_) => Some([0u8; 32]),
                None => None,
            },
            withdrawals: match parent.withdrawals_root {
                Some(_) => Some(Vec::new()),
                None => None,
            },
            extra_data: copy_bytes(&parent.extra_data),
            slot_number: match parent.slot_number {
                Some(slot) => Some(slot.saturating_add(1)),
                None => None,
            },
        };
        if attributes.parent_beacon_block_root.is_some() {
            if let Some(beacon_root) = beacon_root_override {
                attributes.parent_beacon_block_root = Some(beacon_root);
            }
        }
        attributes
    }
}

/// The block-wide limits a pending block is filled within.
#[derive(Clone, Copy, Debug, PartialEq, Eq, Structural)]
pub struct PendingBlockLimits {
    /// Gas limit of the block.
    pub block_gas_limit: u64,
    /// Whether the fork that counts regular and state gas apart is active.
    pub is_amsterdam: bool,
    /// Cap on the regular gas limit of a single transaction.
    pub tx_gas_limit_cap: u64,
    /// Blob gas a block can hold.
    pub max_blob_gas_per_block: u64,
    /// Whether pool transactions are included at all.
    pub include_transactions: bool,
}

/// The gas counted so far in a pending block.
#[derive(Clone, Copy, Debug, PartialEq, Eq, Structural)]
pub struct PendingBlockGas {
    /// Gas used by the transactions, as receipts count it.
    pub cumulative_tx_gas_used: u64,
    /// Regular gas counted against the block capacity.
    pub block_regular_gas_used: u64,
    /// State gas counted against the block capacity.
    pub block_state_gas_used: u64,
    /// Blob gas used by the included blob transactions.
    pub sum_blob_gas_used: u64,
}

/// What the block builder needs to know of a pool transaction before executing it.
#[derive(Clone, Copy, Debug, PartialEq, Eq, Structural)]
pub struct PoolTxInfo {
    /// Gas limit of the transaction.
    pub gas_limit: u64,
    /// Whether it was submitted privately.
    pub is_private: bool,
    /// Blob gas of a blob transaction.
    pub blob_gas: Option<u64>,
}

/// Why a pool transaction is marked invalid; marking also drops the transactions that depend
/// on it.
#[derive(Clone, Copy, Debug, PartialEq, Eq, Structural)]
pub enum InvalidPoolTx {
    /// The transaction needs more gas than is left: its gas, and the gas available.
    ExceedsGasLimit(u64, u64),
    /// The transaction cannot go into a pending block.
    TxTypeNotSupported,
}

/// What to do with a pool transaction before executing it.
#[derive(Clone, Copy, Debug, PartialEq, Eq, Structural)]
pub enum PreExecution {
    /// Execute it.
    Execute,
    /// Do not execute it, and mark it invalid.
    MarkInvalid(InvalidPoolTx),
}

/// What executing a pool transaction gave.
#[derive(Clone, Copy, Debug, PartialEq, Eq, Structural)]
pub enum TxExecution {
    /// It executed.
    Executed {
        /// Gas used, as receipts count it.
        gas_used: u64,
        /// Regular gas counted against the block capacity.
        regular_gas_used: u64,
        /// State gas counted against the block capacity.
        state_gas_used: u64,
    },
    /// It was refused as invalid because its nonce is too low.
    NonceTooLow,
    /// It was refused as invalid for another reason.
    InvalidTransaction,
    /// It was refused because its gas limit is above the gas available in the block.
    GasLimitMoreThanAvailable {
        /// Gas limit of the transaction.
        transaction_gas_limit: u64,
        /// Gas available in the block.
        block_available_gas: u64,
    },
    /// Execution failed in a way that ends this attempt to build the block.
    Fatal,
}

/// What to do after executing a pool transaction.
#[derive(Clone, Copy, Debug, PartialEq, Eq, Structural)]
pub enum PostExecution {
    /// It is in the block; where `skip_blobs` holds, the block is full of blobs and the
    /// remaining blob transactions are skipped.
    Included {
        /// Whether blob transactions are skipped from now on.
        skip_blobs: bool,
    },
    /// Skip it, without marking it.
    Skip,
    /// Skip it and mark it invalid.
    MarkInvalid(InvalidPoolTx),
    /// Stop building the block with an error.
    Abort,
}

/// `a - b`, or zero where `b` is larger.
pub open spec fn sat_sub(a: u64, b: u64) -> u64 {
    if a >= b {
        (a - b) as u64
    } else {
        0
    }
}

/// The smaller of two numbers.
pub open spec fn min_u64(a: u64, b: u64) -> u64 {
    if a <= b {
        a
    } else {
        b
    }
}

/// Whether a transaction does not fit the gas left in the block, with the gas it asks for
/// and the gas that is left. With regular and state gas counted apart, the regular gas limit
/// (capped) must fit the regular gas left and the full gas limit the state gas left; otherwise
/// the gas limit must fit the gas left.
pub open spec fn exceeds_gas(limits: PendingBlockLimits, gas: PendingBlockGas, tx_gas_limit: u64)
    -> Option<(u64, u64)> {
    if limits.is_amsterdam {
        let regular_available = sat_sub(limits.block_gas_limit, gas.block_regular_gas_used);
        let state_available = sat_sub(limits.block_gas_limit, gas.block_state_gas_used);
        let regular_tx = min_u64(tx_gas_limit, limits.tx_gas_limit_cap);
        if regular_tx > regular_available {
            Some((regular_tx, regular_available))
        } else if tx_gas_limit > state_available {
            Some((tx_gas_limit, state_available))
        } else {
            None
        }
    } else {
        let available = sat_sub(limits.block_gas_limit, gas.cumulative_tx_gas_used);
        if tx_gas_limit > available {
            Some((tx_gas_limit, available))
        } else {
            None
        }
    }
}

/// The decision before execution: first the gas capacity, then private transactions, then the
/// blob capacity.
pub open spec fn pre_execution(limits: PendingBlockLimits, gas: PendingBlockGas, tx: PoolTxInfo)
    -> PreExecution {
    match exceeds_gas(limits, gas, tx.gas_limit) {
        Some((asked, available)) => PreExecution::MarkInvalid(
            InvalidPoolTx::ExceedsGasLimit(asked, available),
        ),
        None => if tx.is_private {
            PreExecution::MarkInvalid(InvalidPoolTx::TxTypeNotSupported)
        } else if tx.blob_gas matches Some(b) && gas.sum_blob_gas_used + b
            > limits.max_blob_gas_per_block {
            PreExecution::MarkInvalid(
                InvalidPoolTx::ExceedsGasLimit(tx.blob_gas.unwrap(), limits.max_blob_gas_per_block),
            )
        } else {
            PreExecution::Execute
        },
    }
}

/// The gas counted after a transaction executed with the given gas: receipt, regular and
/// state gas each grow by what it used, and blob gas by the blob gas of a blob transaction.
pub open spec fn count_executed(
    gas: PendingBlockGas,
    tx: PoolTxInfo,
    gas_used: u64,
    regular_gas_used: u64,
    state_gas_used: u64,
) -> PendingBlockGas {
    PendingBlockGas {
        cumulative_tx_gas_used: (gas.cumulative_tx_gas_used + gas_used) as u64,
        block_regular_gas_used: (gas.block_regular_gas_used + regular_gas_used) as u64,
        block_state_gas_used: (gas.block_state_gas_used + state_gas_used) as u64,
        sum_blob_gas_used: (gas.sum_blob_gas_used + match tx.blob_gas {
            Some(b) => b as int,
            None => 0,
        }) as u64,
    }
}

/// Whether the gas counted so far fits the block: the regular and the state gas each within
/// the gas limit where they are counted apart, the receipt gas otherwise, and the blob gas
/// within the blob capacity.
pub open spec fn within_capacity(limits: PendingBlockLimits, gas: PendingBlockGas) -> bool {
    &&& limits.is_amsterdam ==> gas.block_regular_gas_used <= limits.block_gas_limit
        && gas.block_state_gas_used <= limits.block_gas_limit
    &&& !limits.is_amsterdam ==> gas.cumulative_tx_gas_used <= limits.block_gas_limit
    &&& gas.sum_blob_gas_used <= limits.max_blob_gas_per_block
}

/// The decision after a transaction let through to execution gave `result`, with the gas
/// counted before it: an executed one is included, and blob transactions are skipped from then
/// on once its blob gas fills the blob capacity; a too-low nonce is skipped; another invalid
/// transaction and one above the available gas are marked invalid; anything else aborts.
pub open spec fn post_execution(
    limits: PendingBlockLimits,
    gas: PendingBlockGas,
    tx: PoolTxInfo,
    result: TxExecution,
) -> PostExecution {
    match result {
        TxExecution::Executed { gas_used, regular_gas_used, state_gas_used } =>
            PostExecution::Included {
            skip_blobs: tx.blob_gas is Some && count_executed(
                gas,
                tx,
                gas_used,
                regular_gas_used,
                state_gas_used,
            ).sum_blob_gas_used == limits.max_blob_gas_per_block,
        },
        TxExecution::NonceTooLow => PostExecution::Skip,
        TxExecution::InvalidTransaction => PostExecution::MarkInvalid(
            InvalidPoolTx::TxTypeNotSupported,
        ),
        TxExecution::GasLimitMoreThanAvailable { transaction_gas_limit, block_available_gas } =>
            PostExecution::MarkInvalid(
            InvalidPoolTx::ExceedsGasLimit(transaction_gas_limit, block_available_gas),
        ),
        TxExecution::Fatal => PostExecution::Abort,
    }
}

/// A pending block being filled from the pool.
#[derive(Clone, Copy, Debug, PartialEq, Eq, Structural)]
pub struct PendingBlockFill {
    /// The limits of the block.
    pub limits: PendingBlockLimits,
    /// The gas counted so far.
    pub gas: PendingBlockGas,
}

impl PendingBlockFill {
    /// Starts filling a block with no gas used.
    pub fn new(limits: PendingBlockLimits) -> (r: PendingBlockFill)
        ensures
            r.limits == limits,
            r.gas == (PendingBlockGas {
                cumulative_tx_gas_used: 0,
                block_regular_gas_used: 0,
                block_state_gas_used: 0,
                sum_blob_gas_used: 0,
            }),
    {
        PendingBlockFill {
            limits,
            gas: PendingBlockGas {
                cumulative_tx_gas_used: 0,
                block_regular_gas_used: 0,
                block_state_gas_used: 0,
                sum_blob_gas_used: 0,
            },
        }
    }

    /// Whether pool transactions are taken at all.
    pub fn takes_transactions(&self) -> (r: bool)
        ensures
            r == self.limits.include_transactions,
    {
        self.limits.include_transactions
    }

    /// Decides, before executing a pool transaction, whether it fits the block.
    pub fn before_execution(&self, tx: &PoolTxInfo) -> (r: PreExecution)
        ensures
            r == pre_execution(self.limits, self.gas, *tx),
    {
        let limits = self.limits;
        let gas = self.gas;
        let exceeds: Option<(u64, u64)> = if limits.is_amsterdam {
            let regular_available = limits.block_gas_limit.saturating_sub(
                gas.block_regular_gas_used,
            );
            let state_available = limits.block_gas_limit.saturating_sub(gas.block_state_gas_used);
            let regular_tx = if tx.gas_limit <= limits.tx_gas_limit_cap {
                tx.gas_limit
            } else {
                limits.tx_gas_limit_cap
            };
            if regular_tx > regular_available {
                Some((regular_tx, regular_available))
            } else if tx.gas_limit > state_available {
                Some((tx.gas_limit, state_available))
            } else {
                None
            }
        } else {
            let available = limits.block_gas_limit.saturating_sub(gas.cumulative_tx_gas_used);
            if tx.gas_limit > available {
                Some((tx.gas_limit, available))
            } else {
                None
            }
        };
        if let Some((asked, available)) = exceeds {
            return PreExecution::MarkInvalid(InvalidPoolTx::ExceedsGasLimit(asked, available));
        }
        if tx.is_private {
            return PreExecution::MarkInvalid(InvalidPoolTx::TxTypeNotSupported);
        }
        if let Some(blob) = tx.blob_gas {
            if gas.sum_blob_gas_used as u128 + blob as u128 > limits.max_blob_gas_per_block as u128 {
                return PreExecution::MarkInvalid(
                    InvalidPoolTx::ExceedsGasLimit(blob, limits.max_blob_gas_per_block),
                );
            }
        }
        PreExecution::Execute
    }

    /// Counts an executed transaction, or decides what a refused one means: a too-low nonce
    /// is skipped, another invalid transaction and one above the available gas are marked
    /// invalid, anything else ends the attempt. An included blob transaction adds its blob
    /// gas, and once the blob capacity is reached the remaining blob transactions are skipped.
    pub fn after_execution(&mut self, tx: &PoolTxInfo, result: TxExecution) -> (r: PostExecution)
        requires
            result matches TxExecution::Executed { gas_used, regular_gas_used, state_gas_used } ==> {
                &&& old(self).gas.cumulative_tx_gas_used + gas_used <= u64::MAX
                &&& old(self).gas.block_regular_gas_used + regular_gas_used <= u64::MAX
                &&& old(self).gas.block_state_gas_used + state_gas_used <= u64::MAX
                &&& tx.blob_gas matches Some(b) ==> old(self).gas.sum_blob_gas_used + b <= u64::MAX
            },
        ensures
            final(self).limits == old(self).limits,
            r == post_execution(old(self).limits, old(self).gas, *tx, result),
            match result {
                TxExecution::Executed { gas_used, regular_gas_used, state_gas_used } => {
                    let blob = match tx.blob_gas {
                        Some(b) => b as int,
                        None => 0,
                    };
                    &&& final(self).gas.cumulative_tx_gas_used == old(self).gas.cumulative_tx_gas_used
                        + gas_used
                    &&& final(self).gas.block_regular_gas_used == old(self).gas.block_regular_gas_used
                        + regular_gas_used
                    &&& final(self).gas.block_state_gas_used == old(self).gas.block_state_gas_used
                        + state_gas_used
                    &&& final(self).gas.sum_blob_gas_used == old(self).gas.sum_blob_gas_used + blob
                    &&& final(self).gas == count_executed(
                        old(self).gas,
                        *tx,
                        gas_used,
                        regular_gas_used,
                        state_gas_used,
                    )
                    &&& r == PostExecution::Included {
                        skip_blobs: tx.blob_gas is Some && final(self).gas.sum_blob_gas_used
                            == old(self).limits.max_blob_gas_per_block,
                    }
                },
                TxExecution::NonceTooLow => r == PostExecution::Skip && final(self).gas == old(
                    self,
                ).gas,
                TxExecution::InvalidTransaction => r == PostExecution::MarkInvalid(
                    InvalidPoolTx::TxTypeNotSupported,
                ) && final(self).gas == old(self).gas,
                TxExecution::GasLimitMoreThanAvailable {
                    transaction_gas_limit,
                    block_available_gas,
                } => r == PostExecution::MarkInvalid(
                    InvalidPoolTx::ExceedsGasLimit(transaction_gas_limit, block_available_gas),
                ) && final(self).gas == old(self).gas,
                TxExecution::Fatal => r == PostExecution::Abort && final(self).gas == old(self).gas,
            },
    {
        match result {
            TxExecution::Executed { gas_used, regular_gas_used, state_gas_used } => {
                let mut skip_blobs = false;
                if let Some(blob) = tx.blob_gas {
                    self.gas.sum_blob_gas_used = self.gas.sum_blob_gas_used + blob;
                    skip_blobs = self.gas.sum_blob_gas_used == self.limits.max_blob_gas_per_block;
                }
                self.gas.cumulative_tx_gas_used = self.gas.cumulative_tx_gas_used + gas_used;
                self.gas.block_regular_gas_used = self.gas.block_regular_gas_used + regular_gas_used;
                self.gas.block_state_gas_used = self.gas.block_state_gas_used + state_gas_used;
                PostExecution::Included { skip_blobs }
            },
            TxExecution::NonceTooLow => PostExecution::Skip,
            TxExecution::InvalidTransaction => PostExecution::MarkInvalid(
                InvalidPoolTx::TxTypeNotSupported,
            ),
            TxExecution::GasLimitMoreThanAvailable { transaction_gas_limit, block_available_gas } =>
                PostExecution::MarkInvalid(
                InvalidPoolTx::ExceedsGasLimit(transaction_gas_limit, block_available_gas),
            ),
            TxExecution::Fatal => PostExecution::Abort,
        }
    }
}

/// A transaction that is let through to execution fits the block: its gas limit fits the gas
/// left (without the split count) and its blob gas fits the blob capacity.
pub proof fn lemma_executed_fits(limits: PendingBlockLimits, gas: PendingBlockGas, tx: PoolTxInfo)
    requires
        pre_execution(limits, gas, tx) == PreExecution::Execute,
    ensures
        !limits.is_amsterdam ==> gas.cumulative_tx_gas_used + tx.gas_limit <= limits.block_gas_limit
            || tx.gas_limit == 0,
        limits.is_amsterdam ==> tx.gas_limit <= sat_sub(limits.block_gas_limit, gas.block_state_gas_used),
        tx.blob_gas matches Some(b) ==> gas.sum_blob_gas_used + b <= limits.max_blob_gas_per_block,
        !tx.is_private,
{
}

/// Filling keeps the block within its capacity: a transaction that was let through to
/// execution, and that used no more gas than its gas limit (and, with regular and state gas
/// counted apart, no more regular gas than its capped limit and no more state gas than its
/// limit), leaves the counted gas within the block's limits.
pub proof fn lemma_fill_keeps_capacity(
    limits: PendingBlockLimits,
    gas: PendingBlockGas,
    tx: PoolTxInfo,
    gas_used: u64,
    regular_gas_used: u64,
    state_gas_used: u64,
)
    requires
        within_capacity(limits, gas),
        pre_execution(limits, gas, tx) == PreExecution::Execute,
        gas_used <= tx.gas_limit,
        regular_gas_used <= min_u64(tx.gas_limit, limits.tx_gas_limit_cap),
        state_gas_used <= tx.gas_limit,
    ensures
        within_capacity(limits, count_executed(gas, tx, gas_used, regular_gas_used, state_gas_used)),
{
}

/// One pool transaction's way through the block that is being filled, from the gas counted
/// `before` to the gas counted `after`: refused before execution (`None`), or let through and
/// executed with the given result, which counts its gas where it executed and nothing otherwise.
pub open spec fn fill_step(
    limits: PendingBlockLimits,
    before: PendingBlockGas,
    tx: PoolTxInfo,
    outcome: Option<TxExecution>,
    after: PendingBlockGas,
) -> bool {
    match outcome {
        None => pre_execution(limits, before, tx) != PreExecution::Execute && after == before,
        Some(result) => pre_execution(limits, before, tx) == PreExecution::Execute && match result {
            TxExecution::Executed { gas_used, regular_gas_used, state_gas_used } => after
                == count_executed(before, tx, gas_used, regular_gas_used, state_gas_used),
            _ => after == before,
        },
    }
}

/// Whether a transaction that executed used no more gas than its gas limit, no more regular gas
/// than its capped limit and no more state gas than its limit.
pub open spec fn within_limits(limits: PendingBlockLimits, tx: PoolTxInfo, outcome: Option<TxExecution>)
    -> bool {
    outcome matches Some(TxExecution::Executed { gas_used, regular_gas_used, state_gas_used })
        ==> gas_used <= tx.gas_limit && regular_gas_used <= min_u64(
        tx.gas_limit,
        limits.tx_gas_limit_cap,
    ) && state_gas_used <= tx.gas_limit
}

/// The receipt gas of the transactions that executed, in the order they came.
pub open spec fn executed_gas(outcomes: Seq<Option<TxExecution>>) -> int
    decreases outcomes.len(),
{
    if outcomes.len() == 0 {
        0
    } else {
        executed_gas(outcomes.drop_last()) + match outcomes.last() {
            Some(TxExecution::Executed { gas_used, .. }) => gas_used as int,
            _ => 0,
        }
    }
}

/// Filling a block from empty, transaction after transaction in the order the pool yields them,
/// keeps the counted gas within the block's limits at every point, as long as each executed
/// transaction used no more gas than its limits; without the split count, the receipt gas
/// counted is the sum of what the executed transactions used, in order.
pub proof fn lemma_fill_run(
    limits: PendingBlockLimits,
    txs: Seq<PoolTxInfo>,
    outcomes: Seq<Option<TxExecution>>,
    states: Seq<PendingBlockGas>,
)
    requires
        states.len() == txs.len() + 1,
        outcomes.len() == txs.len(),
        states[0] == (PendingBlockGas {
            cumulative_tx_gas_used: 0,
            block_regular_gas_used: 0,
            block_state_gas_used: 0,
            sum_blob_gas_used: 0,
        }),
        forall|i: int|
            0 <= i < txs.len() ==> fill_step(limits, states[i], #[trigger] txs[i], outcomes[i], states[i + 1]),
        forall|i: int| 0 <= i < txs.len() ==> within_limits(limits, #[trigger] txs[i], outcomes[i]),
    ensures
        forall|k: int| 0 <= k <= txs.len() ==> within_capacity(limits, #[trigger] states[k]),
        !limits.is_amsterdam ==> forall|k: int|
            0 <= k <= txs.len() ==> (#[trigger] states[k]).cumulative_tx_gas_used == executed_gas(
                outcomes.take(k),
            ),
    decreases txs.len(),
{
    if txs.len() > 0 {
        let m = (txs.len() - 1) as int;
        lemma_fill_run(limits, txs.take(m), outcomes.take(m), states.take(m + 1));
        assert(within_capacity(limits, states[m])) by {
            assert(states.take(m + 1)[m] == states[m]);
        }
        assert(fill_step(limits, states[m], txs[m], outcomes[m], states[m + 1]));
        assert(within_limits(limits, txs[m], outcomes[m]));
        match outcomes[m] {
            Some(TxExecution::Executed { gas_used, regular_gas_used, state_gas_used }) => {
                lemma_fill_keeps_capacity(
                    limits,
                    states[m],
                    txs[m],
                    gas_used,
                    regular_gas_used,
                    state_gas_used,
                );
            },
            _ => {},
        }
        assert forall|k: int| 0 <= k <= txs.len() implies within_capacity(
            limits,
            #[trigger] states[k],
        ) by {
            if k <= m {
                assert(states.take(m + 1)[k] == states[k]);
            }
        }
        if !limits.is_amsterdam {
            assert forall|k: int| 0 <= k <= txs.len() implies (#[trigger] states[k]).cumulative_tx_gas_used
                == executed_gas(outcomes.take(k)) by {
                if k <= m {
                    assert(states.take(m + 1)[k] == states[k]);
                    assert(outcomes.take(m).take(k) =~= outcomes.take(k));
                } else {
                    assert(states.take(m + 1)[m] == states[m]);
                    assert(outcomes.take(m).take(m) =~= outcomes.take(m));
                    assert(outcomes.take(k).drop_last() =~= outcomes.take(m));
                    assert(outcomes.take(k).last() == outcomes[m]);
                }
            }
        }
    } else {
        assert(within_capacity(limits, states[0]));
        assert(outcomes.take(0) =~= Seq::<Option<TxExecution>>::empty());
    }
}

/// The transactions of a run that go into the block, in the order the pool yielded them: those
/// that were let through to execution and executed, the ones for which the step after execution
/// answers `Included`.
pub open spec fn included_txs(txs: Seq<PoolTxInfo>, outcomes: Seq<Option<TxExecution>>) -> Seq<
    PoolTxInfo,
>
    decreases txs.len(),
{
    if txs.len() == 0 {
        Seq::empty()
    } else {
        let rest = included_txs(txs.drop_last(), outcomes.drop_last());
        if outcomes.last() matches Some(TxExecution::Executed { .. }) {
            rest.push(txs.last())
        } else {
            rest
        }
    }
}

/// The blob gas of a list of transactions, summed.
pub open spec fn blob_gas_total(txs: Seq<PoolTxInfo>) -> int
    decreases txs.len(),
{
    if txs.len() == 0 {
        0
    } else {
        blob_gas_total(txs.drop_last()) + match txs.last().blob_gas {
            Some(b) => b as int,
            None => 0,
        }
    }
}

/// Filling a block from empty, transaction after transaction in the order the pool yields them:
/// after each step the blob gas counted is the blob gas of the transactions included so far, and
/// no private transaction is ever included.
pub proof fn lemma_fill_included(
    limits: PendingBlockLimits,
    txs: Seq<PoolTxInfo>,
    outcomes: Seq<Option<TxExecution>>,
    states: Seq<PendingBlockGas>,
)
    requires
        states.len() == txs.len() + 1,
        outcomes.len() == txs.len(),
        states[0] == (PendingBlockGas {
            cumulative_tx_gas_used: 0,
            block_regular_gas_used: 0,
            block_state_gas_used: 0,
            sum_blob_gas_used: 0,
        }),
        forall|i: int|
            0 <= i < txs.len() ==> fill_step(limits, states[i], #[trigger] txs[i], outcomes[i], states[i + 1]),
    ensures
        forall|k: int|
            0 <= k <= txs.len() ==> (#[trigger] states[k]).sum_blob_gas_used == blob_gas_total(
                included_txs(txs.take(k), outcomes.take(k)),
            ),
        forall|j: int|
            0 <= j < included_txs(txs, outcomes).len() ==> !(#[trigger] included_txs(
                txs,
                outcomes,
            )[j]).is_private,
    decreases txs.len(),
{
    if txs.len() > 0 {
        let m = (txs.len() - 1) as int;
        lemma_fill_included(limits, txs.take(m), outcomes.take(m), states.take(m + 1));
        assert(txs.drop_last() =~= txs.take(m));
        assert(outcomes.drop_last() =~= outcomes.take(m));
        assert(fill_step(limits, states[m], txs[m], outcomes[m], states[m + 1]));
        assert(txs.take(m).take(m) =~= txs.take(m));
        assert(outcomes.take(m).take(m) =~= outcomes.take(m));
        assert(states.take(m + 1)[m] == states[m]);
        let before = included_txs(txs.take(m), outcomes.take(m));
        assert(states[m].sum_blob_gas_used == blob_gas_total(before));
        assert(txs.take(m + 1) =~= txs);
        assert(outcomes.take(m + 1) =~= outcomes);
        match outcomes[m] {
            Some(TxExecution::Executed { .. }) => {
                assert(included_txs(txs, outcomes) == before.push(txs[m]));
                assert(before.push(txs[m]).drop_last() =~= before);
                assert(!txs[m].is_private);
            },
            _ => {
                assert(included_txs(txs, outcomes) == before);
            },
        }
        assert forall|k: int| 0 <= k <= txs.len() implies (#[trigger] states[k]).sum_blob_gas_used
            == blob_gas_total(included_txs(txs.take(k), outcomes.take(k))) by {
            if k <= m {
                assert(states.take(m + 1)[k] == states[k]);
                assert(txs.take(m).take(k) =~= txs.take(k));
                assert(outcomes.take(m).take(k) =~= outcomes.take(k));
            }
        }
    } else {
        assert(txs.take(0) =~= Seq::<PoolTxInfo>::empty());
    }
}

/// Whether a cached pending block can be reused: it is for the same block number, on the same
/// parent, and has not expired.
pub open spec fn cache_reusable(
    env_number: u64,
    cached_number: u64,
    parent_hash: [u8; 32],
    cached_parent_hash: [u8; 32],
    now: u64,
    expires_at: u64,
) -> bool {
    env_number == cached_number && parent_hash == cached_parent_hash && now <= expires_at
}

/// Decides whether a cached pending block can be reused.
pub fn cached_pending_block_is_valid(
    env_number: u64,
    cached_number: u64,
    parent_hash: &[u8; 32],
    cached_parent_hash: &[u8; 32],
    now: u64,
    expires_at: u64,
) -> (r: bool)
    ensures
        r == cache_reusable(env_number, cached_number, *parent_hash, *cached_parent_hash, now, expires_at),
{
    env_number == cached_number && hash_eq(parent_hash, cached_parent_hash) && now <= expires_at
}

/// How long a built pending block stays valid, in milliseconds.
pub const PENDING_BLOCK_TTL_MS: u64 = 1000;

/// When a pending block built at `now_ms` expires; `None` where the time does not fit.
pub fn pending_block_expiry(now_ms: u64) -> (r: Option<u64>)
    ensures
        r == (if now_ms + PENDING_BLOCK_TTL_MS <= u64::MAX {
            Some((now_ms + PENDING_BLOCK_TTL_MS) as u64)
        } else {
            None::<u64>
        }),
{
    now_ms.checked_add(PENDING_BLOCK_TTL_MS)
}

/// Which pending block the node keeps.
#[derive(Clone, Copy, Debug, PartialEq, Eq, Structural)]
pub enum PendingBlockKind {
    /// No pending block is kept.
    Disabled,
    /// A pending block without transactions.
    Empty,
    /// A pending block filled from the pool.
    Full,
}

/// Where the environment of the pending block comes from.
#[derive(Clone, Copy, Debug, PartialEq, Eq, Structural)]
pub enum PendingOrigin {
    /// The consensus layer has a pending block.
    ActualPending,
    /// No pending block is known; the environment is derived from the latest block.
    DerivedFromLatest,
}

/// Why no pending environment can be set up.
#[derive(Clone, Copy, Debug, PartialEq, Eq, Structural)]
pub enum PendingEnvError {
    /// Neither a pending block nor a latest header is known.
    HeaderNotFound,
}

/// Where the pending environment comes from: the consensus layer's pending block where there
/// is one, else the latest header; an error where there is neither.
pub fn pending_env_origin(has_pending_block: bool, has_latest_header: bool) -> (r: Result<
    PendingOrigin,
    PendingEnvError,
>)
    ensures
        has_pending_block ==> r == Ok::<PendingOrigin, PendingEnvError>(PendingOrigin::ActualPending),
        !has_pending_block && has_latest_header ==> r == Ok::<PendingOrigin, PendingEnvError>(
            PendingOrigin::DerivedFromLatest,
        ),
        !has_pending_block && !has_latest_header ==> r == Err::<PendingOrigin, PendingEnvError>(
            PendingEnvError::HeaderNotFound,
        ),
{
    if has_pending_block {
        Ok(PendingOrigin::ActualPending)
    } else if has_latest_header {
        Ok(PendingOrigin::DerivedFromLatest)
    } else {
        Err(PendingEnvError::HeaderNotFound)
    }
}

/// What `pool_pending_block` does.
#[derive(Clone, Copy, Debug, PartialEq, Eq, Structural)]
pub enum PoolPendingPlan {
    /// Nothing is built.
    NoBlock,
    /// A block is built (or taken from the cache) on top of the latest block.
    BuildOnLatest,
}

/// Decides whether a pool-built pending block is wanted: never when the node keeps none, and
/// not when the consensus layer has a pending block.
pub fn pool_pending_plan(kind: PendingBlockKind, origin: PendingOrigin) -> (r: PoolPendingPlan)
    ensures
        r == (if kind == PendingBlockKind::Disabled || origin == PendingOrigin::ActualPending {
            PoolPendingPlan::NoBlock
        } else {
            PoolPendingPlan::BuildOnLatest
        }),
{
    match kind {
        PendingBlockKind::Disabled => PoolPendingPlan::NoBlock,
        _ => match origin {
            PendingOrigin::ActualPending => PoolPendingPlan::NoBlock,
            PendingOrigin::DerivedFromLatest => PoolPendingPlan::BuildOnLatest,
        },
    }
}

/// What `local_pending_block` returns.
#[derive(Clone, Copy, Debug, PartialEq, Eq, Structural)]
pub enum LocalPendingPlan {
    /// No pending block.
    NoBlock,
    /// The consensus layer's pending block.
    ActualPending,
    /// A block built (or taken from the cache) on top of the latest block.
    BuildOnLatest,
}

/// Decides which block `local_pending_block` returns: none when the node keeps none, the
/// consensus layer's pending block where there is one, else one built on the latest block.
pub fn local_pending_plan(kind: PendingBlockKind, origin: PendingOrigin) -> (r: LocalPendingPlan)
    ensures
        r == (if kind == PendingBlockKind::Disabled {
            LocalPendingPlan::NoBlock
        } else if origin == PendingOrigin::ActualPending {
            LocalPendingPlan::ActualPending
        } else {
            LocalPendingPlan::BuildOnLatest
        }),
{
    match kind {
        PendingBlockKind::Disabled => LocalPendingPlan::NoBlock,
        _ => match origin {
            PendingOrigin::ActualPending => LocalPendingPlan::ActualPending,
            PendingOrigin::DerivedFromLatest => LocalPendingPlan::BuildOnLatest,
        },
    }
}

/// Whether a built pending block takes transactions from the pool.
pub fn includes_pool_transactions(kind: PendingBlockKind) -> (r: bool)
    ensures
        r == (kind != PendingBlockKind::Empty),
{
    match kind {
        PendingBlockKind::Empty => false,
        _ => true,
    }
}

} // verus!
