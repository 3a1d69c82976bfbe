//! The decisions of `sil_subscribe`: which stream a subscription is served from, and when the
//! `syncing` subscription sends a new status.

use vstd::prelude::*;

verus! {

/// The kind of a subscription.
#[derive(Clone, Copy, Debug, PartialEq, Eq, Structural)]
pub enum SubscriptionKind {
    /// New block headers.
    NewHeads,
    /// Logs matching a filter.
    Logs,
    /// Transactions entering the pool.
    NewPendingTransactions,
    /// Changes of the sync status.
    Syncing,
    /// Receipts of transactions.
    TransactionReceipts,
    /// A kind this node does not serve.
    Unsupported,
}

/// The shape of the parameters that come with a subscription.
#[derive(Clone, Copy, Debug, PartialEq, Eq, Structural)]
pub enum SubscriptionParams {
    /// An explicit empty parameter.
    Empty,
    /// A log filter.
    Logs,
    /// A flag.
    Bool(bool),
    /// A transaction receipts filter.
    TransactionReceipts,
}

/// Which stream a subscription is served from.
#[derive(Clone, Copy, Debug, PartialEq, Eq, Structural)]
pub enum SubscriptionPlan {
    /// New headers.
    NewHeads,
    /// Logs, with the filter given or the default filter.
    Logs {
        /// Whether the given filter is used (otherwise the default one).
        given_filter: bool,
    },
    /// Full pending transactions.
    FullPendingTransactions,
    /// Hashes of pending transactions.
    PendingTransactionHashes,
    /// The sync status.
    Syncing,
    /// Transaction receipts, with the filter given or the default filter.
    TransactionReceipts {
        /// Whether the given filter is used (otherwise the default one).
        given_filter: bool,
    },
}

/// Why a subscription is refused.
#[derive(Clone, Copy, Debug, PartialEq, Eq, Structural)]
pub enum SubscriptionError {
    /// The parameters do not fit a logs subscription.
    InvalidLogsParams,
    /// The parameters do not fit a pending transactions subscription.
    InvalidPendingTransactionsParams,
    /// The parameters do not fit a transaction receipts subscription.
    InvalidTransactionReceiptsParams,
    /// The kind is not served.
    UnsupportedKind,
}

impl SubscriptionError {
    /// The message of the invalid-params error returned to the client.
    pub fn message(&self) -> (r: &'static str)
        ensures
            r@ == (match *self {
                SubscriptionError::InvalidLogsParams => "Invalid params for logs"@,
                SubscriptionError::InvalidPendingTransactionsParams =>
                    "Invalid params for newPendingTransactions"@,
                SubscriptionError::InvalidTransactionReceiptsParams =>
                    "Invalid params for transactionReceipts"@,
                SubscriptionError::UnsupportedKind => "Unsupported subscription kind"@,
            }),
    {
        match self {
            SubscriptionError::InvalidLogsParams => "Invalid params for logs",
            SubscriptionError::InvalidPendingTransactionsParams =>
                "Invalid params for newPendingTransactions",
            SubscriptionError::InvalidTransactionReceiptsParams =>
                "Invalid params for transactionReceipts",
            SubscriptionError::UnsupportedKind => "Unsupported subscription kind",
        }
    }
}

/// The stream that serves a subscription, or why it is refused: a logs subscription takes a
/// log filter and refuses a flag; a pending transactions subscription sends full transactions
/// for the flag `true`, hashes for `false`, an empty parameter or none, and refuses anything
/// else; a receipts subscription takes a receipts filter, or the default one for an empty
/// parameter or none, and refuses anything else.
pub open spec fn subscription_plan(kind: SubscriptionKind, params: Option<SubscriptionParams>) -> Result<
    SubscriptionPlan,
    SubscriptionError,
> {
    match kind {
        SubscriptionKind::NewHeads => Ok(SubscriptionPlan::NewHeads),
        SubscriptionKind::Logs => match params {
            Some(SubscriptionParams::Logs) => Ok(SubscriptionPlan::Logs { given_filter: true }),
            Some(SubscriptionParams::Bool(_)) => Err(SubscriptionError::InvalidLogsParams),
            _ => Ok(SubscriptionPlan::Logs { given_filter: false }),
        },
        SubscriptionKind::NewPendingTransactions => match params {
            None => Ok(SubscriptionPlan::PendingTransactionHashes),
            Some(SubscriptionParams::Bool(true)) => Ok(SubscriptionPlan::FullPendingTransactions),
            Some(SubscriptionParams::Bool(false)) => Ok(SubscriptionPlan::PendingTransactionHashes),
            Some(SubscriptionParams::Empty) => Ok(SubscriptionPlan::PendingTransactionHashes),
            Some(_) => Err(SubscriptionError::InvalidPendingTransactionsParams),
        },
        SubscriptionKind::Syncing => Ok(SubscriptionPlan::Syncing),
        SubscriptionKind::TransactionReceipts => match params {
            Some(SubscriptionParams::TransactionReceipts) => Ok(
                SubscriptionPlan::TransactionReceipts { given_filter: true },
            ),
            None => Ok(SubscriptionPlan::TransactionReceipts { given_filter: false }),
            Some(SubscriptionParams::Empty) => Ok(
                SubscriptionPlan::TransactionReceipts { given_filter: false },
            ),
            Some(_) => Err(SubscriptionError::InvalidTransactionReceiptsParams),
        },
        SubscriptionKind::Unsupported => Err(SubscriptionError::UnsupportedKind),
    }
}

/// A pending-transactions subscription sends full transactions exactly when the flag `true` is
/// given; with no parameters, an explicit empty one or the flag `false` it sends only hashes,
/// and any other parameter is refused.
pub proof fn lemma_pending_transactions_plan(params: Option<SubscriptionParams>)
    ensures
        subscription_plan(SubscriptionKind::NewPendingTransactions, params) == Ok::<
            SubscriptionPlan,
            SubscriptionError,
        >(SubscriptionPlan::FullPendingTransactions) <==> params == Some(
            SubscriptionParams::Bool(true),
        ),
        (params is None || params == Some(SubscriptionParams::Empty) || params == Some(
            SubscriptionParams::Bool(false),
        )) ==> subscription_plan(SubscriptionKind::NewPendingTransactions, params) == Ok::<
            SubscriptionPlan,
            SubscriptionError,
        >(SubscriptionPlan::PendingTransactionHashes),
        params == Some(SubscriptionParams::Logs) || params == Some(
            SubscriptionParams::TransactionReceipts,
        ) ==> subscription_plan(SubscriptionKind::NewPendingTransactions, params) == Err::<
            SubscriptionPlan,
            SubscriptionError,
        >(SubscriptionError::InvalidPendingTransactionsParams),
{
}

/// A log or receipt subscription uses the given filter exactly when a filter of its own kind is
/// given; a logs subscription refuses a flag, and a receipts subscription refuses anything but
/// its filter or no parameter.
pub proof fn lemma_filter_plans(params: Option<SubscriptionParams>)
    ensures
        subscription_plan(SubscriptionKind::Logs, params) is Ok ==> subscription_plan(
            SubscriptionKind::Logs,
            params,
        )->Ok_0 == (SubscriptionPlan::Logs {
            given_filter: params == Some(SubscriptionParams::Logs),
        }),
        subscription_plan(SubscriptionKind::Logs, params) is Err <==> params matches Some(
            SubscriptionParams::Bool(_),
        ),
        subscription_plan(SubscriptionKind::TransactionReceipts, params) is Ok ==> subscription_plan(
            SubscriptionKind::TransactionReceipts,
            params,
        )->Ok_0 == (SubscriptionPlan::TransactionReceipts {
            given_filter: params == Some(SubscriptionParams::TransactionReceipts),
        }),
        subscription_plan(SubscriptionKind::TransactionReceipts, params) is Err <==> !(params is None
            || params == Some(SubscriptionParams::Empty) || params == Some(
            SubscriptionParams::TransactionReceipts,
        )),
{
}

/// Decides which stream serves an accepted subscription.
pub fn plan_subscription(kind: SubscriptionKind, params: Option<SubscriptionParams>) -> (r: Result<
    SubscriptionPlan,
    SubscriptionError,
>)
    ensures
        r == subscription_plan(kind, params),
{
    match kind {
        SubscriptionKind::NewHeads => Ok(SubscriptionPlan::NewHeads),
        SubscriptionKind::Logs => match params {
            Some(SubscriptionParams::Logs) => Ok(SubscriptionPlan::Logs { given_filter: true }),
            Some(SubscriptionParams::Bool(_)) => Err(SubscriptionError::InvalidLogsParams),
            _ => Ok(SubscriptionPlan::Logs { given_filter: false }),
        },
        SubscriptionKind::NewPendingTransactions => match params {
            None => Ok(SubscriptionPlan::PendingTransactionHashes),
            Some(SubscriptionParams::Bool(true)) => Ok(SubscriptionPlan::FullPendingTransactions),
            Some(SubscriptionParams::Bool(false)) => Ok(SubscriptionPlan::PendingTransactionHashes),
            Some(SubscriptionParams::Empty) => Ok(SubscriptionPlan::PendingTransactionHashes),
            Some(_) => Err(SubscriptionError::InvalidPendingTransactionsParams),
        },
        SubscriptionKind::Syncing => Ok(SubscriptionPlan::Syncing),
        SubscriptionKind::TransactionReceipts => match params {
            Some(SubscriptionParams::TransactionReceipts) => Ok(
                SubscriptionPlan::TransactionReceipts { given_filter: true },
            ),
            None => Ok(SubscriptionPlan::TransactionReceipts { given_filter: false }),
            Some(SubscriptionParams::Empty) => Ok(
                SubscriptionPlan::TransactionReceipts { given_filter: false },
            ),
            Some(_) => Err(SubscriptionError::InvalidTransactionReceiptsParams),
        },
        SubscriptionKind::Unsupported => Err(SubscriptionError::UnsupportedKind),
    }
}

/// The status a `syncing` subscription sends.
#[derive(Clone, Copy, Debug, PartialEq, Eq, Structural)]
pub enum PubSubSyncStatus {
    /// Not syncing.
    Simple(bool),
    /// Syncing, with where the sync stands.
    Detailed {
        /// Always `true`.
        syncing: bool,
        /// The block the sync started at.
        starting_block: u64,
        /// The current block.
        current_block: u64,
        /// The highest block known.
        highest_block: Option<u64>,
    },
}

/// The sync status: while syncing, detailed with the best block as current and highest block
/// (zero where the chain info is not available); otherwise `false`.
pub fn sync_status(is_syncing: bool, best_number: Option<u64>) -> (r: PubSubSyncStatus)
    ensures
        !is_syncing ==> r == PubSubSyncStatus::Simple(false),
        is_syncing ==> ({
            let current = match best_number {
                Some(n) => n,
                None => 0,
            };
            r == PubSubSyncStatus::Detailed {
                syncing: true,
                starting_block: 0,
                current_block: current,
                highest_block: Some(current),
            }
        }),
{
    if is_syncing {
        let current_block = match best_number {
            Some(n) => n,
            None => 0,
        };
        PubSubSyncStatus::Detailed {
            syncing: true,
            starting_block: 0,
            current_block,
            highest_block: Some(current_block),
        }
    } else {
        PubSubSyncStatus::Simple(false)
    }
}

/// Tracks the last sync state sent on a `syncing` subscription.
#[derive(Clone, Copy, Debug, PartialEq, Eq, Structural)]
pub struct SyncWatch {
    last: bool,
}

impl SyncWatch {
    /// The last sync state sent.
    pub closed spec fn last_sent(&self) -> bool {
        self.last
    }

    /// Starts watching; the initial state is sent right away.
    pub fn new(initial_syncing: bool) -> (r: SyncWatch)
        ensures
            r.last_sent() == initial_syncing,
    {
        SyncWatch { last: initial_syncing }
    }

    /// On a new canonical block: sends the sync state only where it changed.
    pub fn on_new_block(&mut self, currently_syncing: bool) -> (r: Option<bool>)
        ensures
            old(self).last_sent() != currently_syncing ==> r == Some(currently_syncing),
            old(self).last_sent() == currently_syncing ==> r is None,
            final(self).last_sent() == currently_syncing,
    {
        if currently_syncing != self.last {
            self.last = currently_syncing;
            Some(currently_syncing)
        } else {
            None
        }
    }
}

/// What happened while piping a stream into a subscription sink.
#[derive(Clone, Copy, Debug, PartialEq, Eq, Structural)]
pub enum PipeEvent {
    /// The subscriber went away.
    SinkClosed,
    /// The stream ended.
    StreamEnded,
    /// The next item could not be serialized.
    SerializeFailed,
    /// The next item was serialized; `sent` tells whether sending it succeeded.
    Delivered {
        /// Whether the message reached the sink.
        sent: bool,
    },
}

/// What the pipe does next.
#[derive(Clone, Copy, Debug, PartialEq, Eq, Structural)]
pub enum PipeControl {
    /// Wait for the next item.
    Continue,
    /// Stop quietly.
    Stop,
    /// Stop and report that an item could not be serialized.
    StopWithSerializeError,
}

/// Decides what the pipe does after an event: it goes on only after an item was delivered;
/// a serialization failure is reported where `report_serialize_errors` holds (the `sil`
/// subscriptions) and ends the pipe quietly otherwise (the `rsil` subscriptions).
pub fn pipe_step(event: PipeEvent, report_serialize_errors: bool) -> (r: PipeControl)
    ensures
        r == (match event {
            PipeEvent::Delivered { sent: true } => PipeControl::Continue,
            PipeEvent::SerializeFailed => if report_serialize_errors {
                PipeControl::StopWithSerializeError
            } else {
                PipeControl::Stop
            },
            _ => PipeControl::Stop,
        }),
{
    match event {
        PipeEvent::Delivered { sent } => if sent {
            PipeControl::Continue
        } else {
            PipeControl::Stop
        },
        PipeEvent::SerializeFailed => if report_serialize_errors {
            PipeControl::StopWithSerializeError
        } else {
            PipeControl::Stop
        },
        PipeEvent::SinkClosed => PipeControl::Stop,
        PipeEvent::StreamEnded => PipeControl::Stop,
    }
}

} // verus!
