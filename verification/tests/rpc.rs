use rsil::pubsub::{pipe_step, PipeControl, PipeEvent};
use rsil::rpc_types::{ensure_success, ExecutionFailure, ExecutionOutcome};
use rsil::node_api::{EngineEthApi, NetApi, NetworkStackId, RpcNodeCoreAdapter};
use rsil::notifications::{CanonEvent, CommitRange, FinalizedNotificationBuffer};
use rsil::pubsub::{
    plan_subscription, sync_status, PubSubSyncStatus, SubscriptionError, SubscriptionKind,
    SubscriptionParams, SubscriptionPlan, SyncWatch,
};
use rsil::rpc_types::{
    AsEthApiError, RpcInvalidTransactionError, SilApiError, SilCapabilitiesDeleteStrategyKind,
    SilCapabilitiesResource, SilSimulateError,
};
use rsil::rsil_api::{
    balance_changes, block_execution_count, on_block_lookup, plan_reexecution,
    AccountBalanceChange, JitCommand, LookupStep, ReexecutionPlan, RsilJitAction,
};

#[test]
fn jit_actions_map_to_backend_calls() {
    assert_eq!(RsilJitAction::Enable.command(), JitCommand::SetEnabled(true));
    assert_eq!(RsilJitAction::Disable.command(), JitCommand::SetEnabled(false));
    assert_eq!(RsilJitAction::Pause.command(), JitCommand::Pause);
    assert_eq!(RsilJitAction::Unpause.command(), JitCommand::Resume);
    assert_eq!(RsilJitAction::Clear.command(), JitCommand::Clear);
}

#[test]
fn block_counts_are_bounded() {
    assert_eq!(block_execution_count(None), Ok(1));
    assert_eq!(block_execution_count(Some(128)), Ok(128));
    assert_eq!(
        block_execution_count(Some(0)),
        Err("block count must be between 1 and 128, got 0".to_string())
    );
    assert_eq!(
        block_execution_count(Some(129)),
        Err("block count must be between 1 and 128, got 129".to_string())
    );
}

#[test]
fn reexecution_plans() {
    assert_eq!(plan_reexecution(None, 3), ReexecutionPlan::NotFound);
    assert_eq!(plan_reexecution(Some(0), 3), ReexecutionPlan::Genesis);
    assert_eq!(
        plan_reexecution(Some(10), 3),
        ReexecutionPlan::Range { parent: 9, first: 10, end: 13 }
    );
    assert_eq!(on_block_lookup(10, 10, true), LookupStep::Collect);
    assert_eq!(on_block_lookup(10, 10, false), LookupStep::NotFound);
    assert_eq!(on_block_lookup(11, 10, false), LookupStep::Stop);
}

#[test]
fn balance_changes_keep_changed_accounts() {
    let entries = vec![
        AccountBalanceChange { address: [1u8; 20], previous: Some([1u8; 32]), current: Some([2u8; 32]) },
        AccountBalanceChange { address: [2u8; 20], previous: Some([3u8; 32]), current: Some([3u8; 32]) },
        AccountBalanceChange { address: [3u8; 20], previous: Some([4u8; 32]), current: None },
        AccountBalanceChange { address: [1u8; 20], previous: None, current: Some([5u8; 32]) },
    ];
    let changes = balance_changes(&entries);
    assert_eq!(changes.len(), 2);
    assert_eq!(changes.get([1u8; 20]), Some([5u8; 32]));
    assert_eq!(changes.get([3u8; 20]), Some([0u8; 32]));
    assert_eq!(changes.get([2u8; 20]), None);
    let none = balance_changes(&Vec::new());
    assert_eq!(none.len(), 0);
    assert_eq!(none.get([1u8; 20]), None);
}

#[test]
fn finalized_notifications_release_covered_commits_in_order() {
    let mut buf = FinalizedNotificationBuffer::new();
    buf.on_canon(CanonEvent::Commit(CommitRange { id: 1, first: 10, last: 12 }));
    buf.on_canon(CanonEvent::Commit(CommitRange { id: 2, first: 5, last: 9 }));
    buf.on_canon(CanonEvent::Commit(CommitRange { id: 3, first: 13, last: 20 }));
    assert!(buf.on_finalized(4).is_empty());
    let out = buf.on_finalized(12);
    assert_eq!(
        out,
        vec![CommitRange { id: 2, first: 5, last: 9 }, CommitRange { id: 1, first: 10, last: 12 }]
    );
    assert!(buf.on_finalized(12).is_empty());
    assert_eq!(buf.on_finalized(20), vec![CommitRange { id: 3, first: 13, last: 20 }]);
}

#[test]
fn reorg_drops_buffered_commits() {
    let mut buf = FinalizedNotificationBuffer::new();
    buf.on_canon(CanonEvent::Commit(CommitRange { id: 1, first: 1, last: 2 }));
    buf.on_canon(CanonEvent::Reorg);
    assert!(buf.on_finalized(100).is_empty());
}

#[test]
fn finalized_release_keeps_buffer_order_for_equal_starts() {
    let mut buf = FinalizedNotificationBuffer::new();
    buf.on_canon(CanonEvent::Commit(CommitRange { id: 7, first: 3, last: 4 }));
    buf.on_canon(CanonEvent::Commit(CommitRange { id: 8, first: 1, last: 2 }));
    buf.on_canon(CanonEvent::Commit(CommitRange { id: 9, first: 3, last: 3 }));
    assert_eq!(
        buf.on_finalized(5),
        vec![
            CommitRange { id: 8, first: 1, last: 2 },
            CommitRange { id: 7, first: 3, last: 4 },
            CommitRange { id: 9, first: 3, last: 3 },
        ]
    );
}

#[test]
fn subscription_plans() {
    assert_eq!(plan_subscription(SubscriptionKind::NewHeads, None), Ok(SubscriptionPlan::NewHeads));
    assert_eq!(
        plan_subscription(SubscriptionKind::Logs, Some(SubscriptionParams::Logs)),
        Ok(SubscriptionPlan::Logs { given_filter: true })
    );
    assert_eq!(
        plan_subscription(SubscriptionKind::Logs, None),
        Ok(SubscriptionPlan::Logs { given_filter: false })
    );
    assert_eq!(
        plan_subscription(SubscriptionKind::Logs, Some(SubscriptionParams::Bool(true))),
        Err(SubscriptionError::InvalidLogsParams)
    );
    assert_eq!(
        plan_subscription(SubscriptionKind::NewPendingTransactions, Some(SubscriptionParams::Bool(true))),
        Ok(SubscriptionPlan::FullPendingTransactions)
    );
    assert_eq!(
        plan_subscription(SubscriptionKind::NewPendingTransactions, Some(SubscriptionParams::Empty)),
        Ok(SubscriptionPlan::PendingTransactionHashes)
    );
    assert_eq!(
        plan_subscription(SubscriptionKind::NewPendingTransactions, Some(SubscriptionParams::Logs)),
        Err(SubscriptionError::InvalidPendingTransactionsParams)
    );
    assert_eq!(
        plan_subscription(SubscriptionKind::TransactionReceipts, Some(SubscriptionParams::Bool(false))),
        Err(SubscriptionError::InvalidTransactionReceiptsParams)
    );
    assert_eq!(
        plan_subscription(SubscriptionKind::TransactionReceipts, Some(SubscriptionParams::Empty)),
        Ok(SubscriptionPlan::TransactionReceipts { given_filter: false })
    );
    assert_eq!(
        plan_subscription(SubscriptionKind::Unsupported, None),
        Err(SubscriptionError::UnsupportedKind)
    );
    assert_eq!(SubscriptionError::InvalidLogsParams.message(), "Invalid params for logs");
    assert_eq!(plan_subscription(SubscriptionKind::Syncing, None), Ok(SubscriptionPlan::Syncing));
}

#[test]
fn sync_status_and_watch() {
    assert_eq!(sync_status(false, Some(5)), PubSubSyncStatus::Simple(false));
    assert_eq!(
        sync_status(true, Some(5)),
        PubSubSyncStatus::Detailed {
            syncing: true,
            starting_block: 0,
            current_block: 5,
            highest_block: Some(5)
        }
    );
    assert_eq!(
        sync_status(true, None),
        PubSubSyncStatus::Detailed {
            syncing: true,
            starting_block: 0,
            current_block: 0,
            highest_block: Some(0)
        }
    );
    let mut w = SyncWatch::new(true);
    assert_eq!(w.on_new_block(true), None);
    assert_eq!(w.on_new_block(false), Some(false));
    assert_eq!(w.on_new_block(false), None);
    assert_eq!(w.on_new_block(true), Some(true));
}

#[test]
fn capabilities_resources() {
    let w = SilCapabilitiesResource::window(10, 90);
    assert!(!w.disabled);
    assert_eq!(w.oldest_block, Some(10));
    let s = w.delete_strategy.unwrap();
    assert_eq!(s.strategy_type, SilCapabilitiesDeleteStrategyKind::Window);
    assert_eq!(s.retention_blocks, 90);
    assert_eq!(SilCapabilitiesResource::available_from(0).oldest_block, Some(0));
    assert_eq!(SilCapabilitiesResource::available_from(0).delete_strategy, None);
    let d = SilCapabilitiesResource::disabled();
    assert!(d.disabled);
    assert_eq!(d.oldest_block, None);
}

#[test]
fn simulate_errors() {
    let e = SilApiError::InvalidTransaction(RpcInvalidTransactionError::NonceTooLow { tx: 1, state: 2 });
    assert_eq!(e.as_simulate_error(), Some(SilSimulateError::NonceTooLow { tx: 1, state: 2 }));
    assert_eq!(
        SilApiError::InvalidTransaction(RpcInvalidTransactionError::FeeCapTooLow).as_simulate_error(),
        Some(SilSimulateError::BaseFeePerGasTooLow)
    );
    assert_eq!(
        SilApiError::InvalidTransaction(RpcInvalidTransactionError::GasTooLow).as_simulate_error(),
        Some(SilSimulateError::IntrinsicGasTooLow)
    );
    assert_eq!(
        SilApiError::InvalidTransaction(RpcInvalidTransactionError::GasTooHigh).as_simulate_error(),
        None
    );
    assert_eq!(SilApiError::Other.as_simulate_error(), None);
    assert!(SilApiError::InvalidTransaction(RpcInvalidTransactionError::GasTooHigh).is_gas_too_high());
    assert!(!SilApiError::Other.is_gas_too_low());
    assert!(SilApiError::InvalidTransaction(RpcInvalidTransactionError::GasTooLow).is_gas_too_low());
}

#[test]
fn handler_types_and_stack_ids() {
    let api = NetApi::new(1u8, 2u8);
    assert_eq!(api.version(1337), "1337");
    assert_eq!(api.peer_count(4), 4);
    assert!(api.is_listening());
    assert_eq!(*api.network(), 1);
    assert_eq!(*api.sil(), 2);
    let engine = EngineEthApi::new("a", "b");
    assert_eq!(*engine.sil(), "a");
    assert_eq!(*engine.eth_filter(), "b");
    let core = RpcNodeCoreAdapter::new(1, 2, 3, 4);
    assert_eq!((*core.provider(), *core.pool(), *core.network(), *core.evm_config()), (1, 2, 3, 4));
    assert_eq!(NetworkStackId::id(true, true), Some(b"opel".to_vec()));
    assert_eq!(NetworkStackId::id(false, true), Some(b"sil".to_vec()));
    assert_eq!(NetworkStackId::id(false, false), None);
    assert_eq!(NetworkStackId::eth2(), b"eth2".to_vec());
    assert_eq!(NetworkStackId::opstack(), b"opstack".to_vec());
}

#[test]
fn pipe_steps() {
    assert_eq!(pipe_step(PipeEvent::Delivered { sent: true }, true), PipeControl::Continue);
    assert_eq!(pipe_step(PipeEvent::Delivered { sent: false }, true), PipeControl::Stop);
    assert_eq!(pipe_step(PipeEvent::SinkClosed, true), PipeControl::Stop);
    assert_eq!(pipe_step(PipeEvent::StreamEnded, false), PipeControl::Stop);
    assert_eq!(pipe_step(PipeEvent::SerializeFailed, true), PipeControl::StopWithSerializeError);
    assert_eq!(pipe_step(PipeEvent::SerializeFailed, false), PipeControl::Stop);
}

#[test]
fn ensure_success_maps_outcomes() {
    assert_eq!(ensure_success::<u8>(ExecutionOutcome::Success(vec![1, 2])), Ok(vec![1, 2]));
    assert_eq!(
        ensure_success::<u8>(ExecutionOutcome::Revert(vec![3])),
        Err(ExecutionFailure::Revert(vec![3]))
    );
    assert_eq!(
        ensure_success(ExecutionOutcome::Halt { reason: 9u8, gas_used: 21000 }),
        Err(ExecutionFailure::Halt { reason: 9u8, gas_used: 21000 })
    );
}

#[test]
fn trait_methods_answer_through_the_core_error() {
    let gas = SilApiError::InvalidTransaction(RpcInvalidTransactionError::GasTooHigh);
    assert!(AsEthApiError::is_gas_too_high(&gas));
    assert!(!AsEthApiError::is_gas_too_low(&gas));
    assert_eq!(AsEthApiError::as_simulate_error(&gas), None);
    let low = SilApiError::InvalidTransaction(RpcInvalidTransactionError::GasTooLow);
    assert!(AsEthApiError::is_gas_too_low(&low));
    let nonce = SilApiError::InvalidTransaction(RpcInvalidTransactionError::NonceTooHigh);
    assert_eq!(nonce.as_simulate_error(), Some(SilSimulateError::NonceTooHigh));
    assert!(!AsEthApiError::is_gas_too_high(&SilApiError::Other));
    assert_eq!(AsEthApiError::as_err(&SilApiError::Other), Some(&SilApiError::Other));
}

#[test]
fn finalized_run_sends_each_commit_once_and_only_non_empty_messages() {
    let mut buf = FinalizedNotificationBuffer::new();
    let a = CommitRange { id: 1, first: 1, last: 5 };
    let b = CommitRange { id: 2, first: 6, last: 9 };
    let c = CommitRange { id: 3, first: 6, last: 8 };
    buf.on_canon(CanonEvent::Commit(a));
    buf.on_canon(CanonEvent::Commit(b));
    assert_eq!(buf.on_finalized_message(3), None);
    assert_eq!(buf.on_finalized_message(5), Some(vec![a]));
    assert_eq!(buf.on_finalized_message(5), None);
    buf.on_canon(CanonEvent::Reorg);
    buf.on_canon(CanonEvent::Commit(c));
    assert_eq!(buf.on_finalized_message(9), Some(vec![c]));
    assert_eq!(buf.on_finalized_message(100), None);
}
