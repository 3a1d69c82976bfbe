//! The decisions of the `rsil` RPC namespace: JIT control, block re-execution and balance
//! changes.

use vstd::prelude::*;
use crate::balance_map::{balance_map_empty, balance_map_insert, BalanceMap};
use crate::bytes::hash_eq;
use vstd::string::StringExecFns;
use crate::text::{decimal_text, u64_to_decimal};

verus! {

/// Supported `rsil_jit` control actions.
#[derive(Clone, Copy, Debug, PartialEq, Eq, Structural)]
pub enum RsilJitAction {
    /// Enable JIT compilation for the backend.
    Enable,
    /// Disable JIT compilation for the backend.
    Disable,
    /// Pause background JIT compilation.
    Pause,
    /// Resume background JIT compilation.
    Unpause,
    /// Clear resident and persisted JIT artifacts.
    Clear,
}

/// The call a JIT action makes on the JIT backend.
#[derive(Clone, Copy, Debug, PartialEq, Eq, Structural)]
pub enum JitCommand {
    /// Set whether compilation is enabled.
    SetEnabled(bool),
    /// Pause background compilation.
    Pause,
    /// Resume background compilation.
    Resume,
    /// Clear the compiled artifacts.
    Clear,
}

impl RsilJitAction {
    /// The backend call for this action: enable and disable switch compilation on and off,
    /// the others pause, resume or clear.
    pub fn command(&self) -> (r: JitCommand)
        ensures
            r == (match *self {
                RsilJitAction::Enable => JitCommand::SetEnabled(true),
                RsilJitAction::Disable => JitCommand::SetEnabled(false),
                RsilJitAction::Pause => JitCommand::Pause,
                RsilJitAction::Unpause => JitCommand::Resume,
                RsilJitAction::Clear => JitCommand::Clear,
            }),
    {
        match self {
            RsilJitAction::Enable => JitCommand::SetEnabled(true),
            RsilJitAction::Disable => JitCommand::SetEnabled(false),
            RsilJitAction::Pause => JitCommand::Pause,
            RsilJitAction::Unpause => JitCommand::Resume,
            RsilJitAction::Clear => JitCommand::Clear,
        }
    }
}

/// The most blocks one request may re-execute.
pub const MAX_BLOCK_COUNT: u64 = 128;

/// The message of an out-of-range block count.
pub open spec fn block_count_message(count: u64) -> Seq<char> {
    "block count must be between 1 and "@ + decimal_text(MAX_BLOCK_COUNT as nat) + ", got "@
        + decimal_text(count as nat)
}

/// The number of blocks to re-execute: one where none is given; an error that names the
/// bounds and the count where it is zero or above the maximum.
pub fn block_execution_count(count: Option<u64>) -> (r: Result<u64, String>)
    ensures
        ({
            let c = match count {
                Some(c) => c,
                None => 1,
            };
            if 1 <= c <= MAX_BLOCK_COUNT {
                r == Ok::<u64, String>(c)
            } else {
                r matches Err(m) && m@ == block_count_message(c)
            }
        }),
{
    let c = match count {
        Some(c) => c,
        None => 1,
    };
    if c == 0 || c > MAX_BLOCK_COUNT {
        let mut m = String::new();
        m.append("block count must be between 1 and ");
        let max = u64_to_decimal(MAX_BLOCK_COUNT);
        m.append(max.as_str());
        m.append(", got ");
        let got = u64_to_decimal(c);
        m.append(got.as_str());
        proof {
            reveal_strlit("block count must be between 1 and ");
            reveal_strlit(", got ");
            assert(m@ =~= block_count_message(c));
        }
        return Err(m);
    }
    Ok(c)
}

/// What re-executing blocks from a start block does.
#[derive(Clone, Copy, Debug, PartialEq, Eq, Structural)]
pub enum ReexecutionPlan {
    /// The start block is unknown: there is no outcome.
    NotFound,
    /// The start block is genesis: the outcome is empty.
    Genesis,
    /// Execute on the state after `parent` the blocks from `first` up to, not including,
    /// `end`.
    Range {
        /// The block whose state the execution starts from.
        parent: u64,
        /// The first block to execute.
        first: u64,
        /// One past the last block to execute.
        end: u64,
    },
}

/// Plans the re-execution of `block_count` blocks from the block `start`, if it is known.
pub fn plan_reexecution(start: Option<u64>, block_count: u64) -> (r: ReexecutionPlan)
    requires
        start matches Some(s) ==> s + block_count <= u64::MAX,
    ensures
        r == (match start {
            None => ReexecutionPlan::NotFound,
            Some(s) => if s == 0 {
                ReexecutionPlan::Genesis
            } else {
                ReexecutionPlan::Range {
                    parent: (s - 1) as u64,
                    first: s,
                    end: (s + block_count) as u64,
                }
            },
        }),
{
    match start {
        None => ReexecutionPlan::NotFound,
        Some(s) => if s == 0 {
            ReexecutionPlan::Genesis
        } else {
            ReexecutionPlan::Range { parent: s - 1, first: s, end: s + block_count }
        },
    }
}

/// What to do after looking up a block of the range.
#[derive(Clone, Copy, Debug, PartialEq, Eq, Structural)]
pub enum LookupStep {
    /// Keep the block and go on.
    Collect,
    /// The first block is missing: there is no outcome.
    NotFound,
    /// A later block is missing: execute the blocks collected so far.
    Stop,
}

/// Decides on a block lookup within the range that starts at `first`.
pub fn on_block_lookup(number: u64, first: u64, found: bool) -> (r: LookupStep)
    ensures
        r == (if found {
            LookupStep::Collect
        } else if number == first {
            LookupStep::NotFound
        } else {
            LookupStep::Stop
        }),
{
    if found {
        LookupStep::Collect
    } else if number == first {
        LookupStep::NotFound
    } else {
        LookupStep::Stop
    }
}

/// An account touched by a block: its balance before the block (if it existed) and now.
#[derive(Clone, Copy, Debug, PartialEq, Eq)]
pub struct AccountBalanceChange {
    /// The account.
    pub address: [u8; 20],
    /// Its balance before the block, if it existed.
    pub previous: Option<[u8; 32]>,
    /// Its balance now, if it exists.
    pub current: Option<[u8; 32]>,
}

/// The zero balance.
pub open spec fn zero_balance() -> [u8; 32] {
    vstd::array::spec_array_fill_for_copy_type::<u8, 32>(0u8)
}

/// The balance an account now reports: its current balance, or zero where it no longer
/// exists.
pub open spec fn balance_or_zero(b: Option<[u8; 32]>) -> [u8; 32] {
    match b {
        Some(v) => v,
        None => zero_balance(),
    }
}

/// The changed balances: each account whose balance now differs from before maps to its
/// current balance (zero where it no longer exists); a later entry for the same account
/// replaces an earlier one.
pub open spec fn balance_changes_map(entries: Seq<AccountBalanceChange>) -> Map<[u8; 20], [u8; 32]>
    decreases entries.len(),
{
    if entries.len() == 0 {
        Map::empty()
    } else {
        let m = balance_changes_map(entries.drop_last());
        let e = entries.last();
        if e.previous != e.current {
            m.insert(e.address, balance_or_zero(e.current))
        } else {
            m
        }
    }
}

/// Whether no entry after place `i` changes the balance of the account of entry `i`.
pub open spec fn last_change_of_account(entries: Seq<AccountBalanceChange>, i: int) -> bool {
    forall|j: int|
        i < j < entries.len() && (#[trigger] entries[j]).address == entries[i].address
            ==> entries[j].previous == entries[j].current
}

/// The changed balances hold, for an account whose balance some entry changes, the balance the
/// last such entry reports now: its current balance, or zero where the account no longer
/// exists, never the balance before the block. Accounts whose balance no entry changes are
/// absent.
pub proof fn lemma_balance_changes_current(entries: Seq<AccountBalanceChange>, i: int)
    requires
        0 <= i < entries.len(),
        entries[i].previous != entries[i].current,
        last_change_of_account(entries, i),
    ensures
        balance_changes_map(entries).dom().contains(entries[i].address),
        entries[i].current matches Some(v) ==> balance_changes_map(entries)[entries[i].address]
            == v,
        entries[i].current is None ==> balance_changes_map(entries)[entries[i].address]
            == zero_balance(),
    decreases entries.len(),
{
    let n = entries.len() - 1;
    if i < n {
        let front = entries.drop_last();
        assert forall|j: int|
            i < j < front.len() && (#[trigger] front[j]).address == front[i].address implies front[j].previous
            == front[j].current by {
            assert(entries[j] == front[j]);
        }
        lemma_balance_changes_current(front, i);
        assert(last_change_of_account(entries, i));
        if entries.last().address == entries[i].address {
            assert(entries[n] == entries.last());
        }
    }
}

/// An account is in the changed balances only where some entry changes its balance.
pub proof fn lemma_balance_changes_only_changed(entries: Seq<AccountBalanceChange>, a: [u8; 20])
    requires
        balance_changes_map(entries).dom().contains(a),
    ensures
        exists|i: int|
            0 <= i < entries.len() && (#[trigger] entries[i]).address == a && entries[i].previous
                != entries[i].current,
    decreases entries.len(),
{
    let front = entries.drop_last();
    let e = entries.last();
    if e.address == a && e.previous != e.current {
        assert(entries[entries.len() - 1] == e);
    } else {
        lemma_balance_changes_only_changed(front, a);
        let i = choose|i: int|
            0 <= i < front.len() && (#[trigger] front[i]).address == a && front[i].previous
                != front[i].current;
        assert(entries[i] == front[i]);
    }
}

fn balance_eq(a: &Option<[u8; 32]>, b: &Option<[u8; 32]>) -> (r: bool)
    ensures
        r == (*a == *b),
{
    match (a, b) {
        (None, None) => true,
        (Some(x), Some(y)) => hash_eq(x, y),
        _ => false,
    }
}

/// Collects the accounts whose balance changed in a block, with their current balance (zero
/// where the account no longer exists), into the address map the RPC answers with.
pub fn balance_changes(entries: &Vec<AccountBalanceChange>) -> (r: BalanceMap)
    ensures
        r@ == balance_changes_map(entries@),
{
    let mut out = balance_map_empty();
    let mut i: usize = 0;
    while i < entries.len()
        invariant
            i <= entries.len(),
            out@ == balance_changes_map(entries@.take(i as int)),
        decreases entries.len() - i,
    {
        let e = entries[i];
        proof {
            assert(entries@.take(i + 1).drop_last() =~= entries@.take(i as int));
            assert(entries@.take(i + 1).last() == e);
        }
        if !balance_eq(&e.previous, &e.current) {
            let value = match e.current {
                Some(v) => v,
                None => [0u8; 32],
            };
            assert(value == balance_or_zero(e.current)) by {
                if e.current is None {
                    assert(value =~= zero_balance());
                }
            }
            balance_map_insert(&mut out, e.address, value);
        }
        i = i + 1;
    }
    proof {
        assert(entries@.take(entries.len() as int) =~= entries@);
    }
    out
}

} // verus!
