use rsil::pending::{local_pending_plan, pending_env_origin, LocalPendingPlan, PendingEnvError};
use rsil::pending::{
    cached_pending_block_is_valid, includes_pool_transactions, pending_block_expiry,
    pool_pending_plan, InvalidPoolTx, NextBlockEnvAttributes, ParentHeader, PendingBlockFill,
    PendingBlockKind, PendingBlockLimits, PendingOrigin, PoolPendingPlan, PoolTxInfo,
    PostExecution, PreExecution, TxExecution,
};

fn header() -> ParentHeader {
    ParentHeader {
        timestamp: 100,
        beneficiary: [1u8; 20],
        gas_limit: 30_000_000,
        parent_beacon_block_root: None,
        withdrawals_root: None,
        extra_data: vec![9, 9],
        slot_number: None,
    }
}

#[test]
fn pending_env_defaults_parent_beacon_root() {
    let mut header = header();
    let beacon_root = [0x42u8; 32];
    header.parent_beacon_block_root = Some(beacon_root);

    let attrs = NextBlockEnvAttributes::build_pending_env(&header, None);

    assert_eq!(attrs.parent_beacon_block_root, Some([0u8; 32]));
}

#[test]
fn pending_env_applies_parent_beacon_root_override() {
    let header = ParentHeader { parent_beacon_block_root: Some([0u8; 32]), ..header() };
    let beacon_root = [0x42u8; 32];

    let attrs = NextBlockEnvAttributes::build_pending_env(&header, Some(beacon_root));

    assert_eq!(attrs.parent_beacon_block_root, Some(beacon_root));
}

#[test]
fn pending_env_ignores_parent_beacon_root_override_before_fork() {
    let beacon_root = [0x42u8; 32];

    let attrs = NextBlockEnvAttributes::build_pending_env(&header(), Some(beacon_root));

    assert_eq!(attrs.parent_beacon_block_root, None);
}

#[test]
fn pending_env_increments_parent_slot_number() {
    let header = ParentHeader { slot_number: Some(7), ..header() };

    let attrs = NextBlockEnvAttributes::build_pending_env(&header, None);

    assert_eq!(attrs.slot_number, Some(8));
}

#[test]
fn pending_env_copies_the_parent() {
    let header = ParentHeader {
        timestamp: u64::MAX - 3,
        withdrawals_root: Some([5u8; 32]),
        slot_number: Some(u64::MAX),
        ..header()
    };
    let attrs = NextBlockEnvAttributes::pending_env_with_randao(&header, None, [3u8; 32]);
    assert_eq!(attrs.timestamp, u64::MAX);
    assert_eq!(attrs.slot_number, Some(u64::MAX));
    assert_eq!(attrs.withdrawals, Some(vec![]));
    assert_eq!(attrs.extra_data, vec![9, 9]);
    assert_eq!(attrs.gas_limit, 30_000_000);
    assert_eq!(attrs.suggested_fee_recipient, [1u8; 20]);
    assert_eq!(attrs.prev_randao, [3u8; 32]);
    let normal = NextBlockEnvAttributes::build_pending_env(&header_with_ts(100), None);
    assert_eq!(normal.timestamp, 112);
    assert_eq!(normal.extra_data, vec![9, 9]);
}

fn header_with_ts(ts: u64) -> ParentHeader {
    ParentHeader { timestamp: ts, ..header() }
}

fn limits(is_amsterdam: bool) -> PendingBlockLimits {
    PendingBlockLimits {
        block_gas_limit: 100,
        is_amsterdam,
        tx_gas_limit_cap: 60,
        max_blob_gas_per_block: 10,
        include_transactions: true,
    }
}

fn tx(gas_limit: u64) -> PoolTxInfo {
    PoolTxInfo { gas_limit, is_private: false, blob_gas: None }
}

#[test]
fn fill_counts_gas_and_refuses_what_does_not_fit() {
    let mut fill = PendingBlockFill::new(limits(false));
    assert!(fill.takes_transactions());
    assert_eq!(fill.before_execution(&tx(60)), PreExecution::Execute);
    let r = fill.after_execution(
        &tx(60),
        TxExecution::Executed { gas_used: 50, regular_gas_used: 50, state_gas_used: 0 },
    );
    assert_eq!(r, PostExecution::Included { skip_blobs: false });
    assert_eq!(fill.gas.cumulative_tx_gas_used, 50);
    assert_eq!(
        fill.before_execution(&tx(60)),
        PreExecution::MarkInvalid(InvalidPoolTx::ExceedsGasLimit(60, 50))
    );
    assert_eq!(fill.before_execution(&tx(50)), PreExecution::Execute);
    let private = PoolTxInfo { is_private: true, ..tx(1) };
    assert_eq!(
        fill.before_execution(&private),
        PreExecution::MarkInvalid(InvalidPoolTx::TxTypeNotSupported)
    );
}

#[test]
fn fill_with_split_gas_caps_the_regular_gas() {
    let mut fill = PendingBlockFill::new(limits(true));
    // the regular gas is capped at 60, the full limit must fit the state gas left
    assert_eq!(fill.before_execution(&tx(90)), PreExecution::Execute);
    fill.after_execution(
        &tx(90),
        TxExecution::Executed { gas_used: 80, regular_gas_used: 45, state_gas_used: 30 },
    );
    assert_eq!(
        fill.before_execution(&tx(90)),
        PreExecution::MarkInvalid(InvalidPoolTx::ExceedsGasLimit(60, 55))
    );
    assert_eq!(
        fill.before_execution(&tx(75)),
        PreExecution::MarkInvalid(InvalidPoolTx::ExceedsGasLimit(60, 55))
    );
    assert_eq!(fill.before_execution(&tx(55)), PreExecution::Execute);
}

#[test]
fn fill_with_split_gas_checks_state_gas() {
    let mut fill = PendingBlockFill::new(limits(true));
    fill.after_execution(
        &tx(50),
        TxExecution::Executed { gas_used: 50, regular_gas_used: 10, state_gas_used: 40 },
    );
    assert_eq!(
        fill.before_execution(&tx(61)),
        PreExecution::MarkInvalid(InvalidPoolTx::ExceedsGasLimit(61, 60))
    );
    assert_eq!(fill.before_execution(&tx(60)), PreExecution::Execute);
}

#[test]
fn fill_blob_capacity() {
    let mut fill = PendingBlockFill::new(limits(false));
    let blob = PoolTxInfo { gas_limit: 1, is_private: false, blob_gas: Some(6) };
    assert_eq!(fill.before_execution(&blob), PreExecution::Execute);
    let r = fill.after_execution(
        &blob,
        TxExecution::Executed { gas_used: 1, regular_gas_used: 1, state_gas_used: 0 },
    );
    assert_eq!(r, PostExecution::Included { skip_blobs: false });
    assert_eq!(
        fill.before_execution(&blob),
        PreExecution::MarkInvalid(InvalidPoolTx::ExceedsGasLimit(6, 10))
    );
    let small = PoolTxInfo { blob_gas: Some(4), ..blob };
    assert_eq!(fill.before_execution(&small), PreExecution::Execute);
    let r = fill.after_execution(
        &small,
        TxExecution::Executed { gas_used: 1, regular_gas_used: 1, state_gas_used: 0 },
    );
    assert_eq!(r, PostExecution::Included { skip_blobs: true });
    assert_eq!(fill.gas.sum_blob_gas_used, 10);
}

#[test]
fn fill_execution_failures() {
    let mut fill = PendingBlockFill::new(limits(false));
    let before = fill.gas;
    assert_eq!(fill.after_execution(&tx(1), TxExecution::NonceTooLow), PostExecution::Skip);
    assert_eq!(
        fill.after_execution(&tx(1), TxExecution::InvalidTransaction),
        PostExecution::MarkInvalid(InvalidPoolTx::TxTypeNotSupported)
    );
    assert_eq!(
        fill.after_execution(
            &tx(1),
            TxExecution::GasLimitMoreThanAvailable { transaction_gas_limit: 9, block_available_gas: 3 }
        ),
        PostExecution::MarkInvalid(InvalidPoolTx::ExceedsGasLimit(9, 3))
    );
    assert_eq!(fill.after_execution(&tx(1), TxExecution::Fatal), PostExecution::Abort);
    assert_eq!(fill.gas, before);
}

#[test]
fn pending_block_cache_and_plans() {
    assert!(cached_pending_block_is_valid(5, 5, &[1u8; 32], &[1u8; 32], 10, 10));
    assert!(!cached_pending_block_is_valid(5, 6, &[1u8; 32], &[1u8; 32], 10, 10));
    assert!(!cached_pending_block_is_valid(5, 5, &[1u8; 32], &[2u8; 32], 10, 10));
    assert!(!cached_pending_block_is_valid(5, 5, &[1u8; 32], &[1u8; 32], 11, 10));
    assert_eq!(pending_block_expiry(5), Some(1005));
    assert_eq!(pending_block_expiry(u64::MAX), None);
    assert_eq!(
        pool_pending_plan(PendingBlockKind::Disabled, PendingOrigin::DerivedFromLatest),
        PoolPendingPlan::NoBlock
    );
    assert_eq!(
        pool_pending_plan(PendingBlockKind::Full, PendingOrigin::ActualPending),
        PoolPendingPlan::NoBlock
    );
    assert_eq!(
        pool_pending_plan(PendingBlockKind::Empty, PendingOrigin::DerivedFromLatest),
        PoolPendingPlan::BuildOnLatest
    );
    assert!(!includes_pool_transactions(PendingBlockKind::Empty));
    assert!(includes_pool_transactions(PendingBlockKind::Full));
}

#[test]
fn pending_origins_and_local_plans() {
    assert_eq!(pending_env_origin(true, false), Ok(PendingOrigin::ActualPending));
    assert_eq!(pending_env_origin(false, true), Ok(PendingOrigin::DerivedFromLatest));
    assert_eq!(pending_env_origin(false, false), Err(PendingEnvError::HeaderNotFound));
    assert_eq!(
        local_pending_plan(PendingBlockKind::Disabled, PendingOrigin::ActualPending),
        LocalPendingPlan::NoBlock
    );
    assert_eq!(
        local_pending_plan(PendingBlockKind::Full, PendingOrigin::ActualPending),
        LocalPendingPlan::ActualPending
    );
    assert_eq!(
        local_pending_plan(PendingBlockKind::Empty, PendingOrigin::DerivedFromLatest),
        LocalPendingPlan::BuildOnLatest
    );
}

#[test]
fn fill_never_exceeds_the_block_capacity() {
    let mut fill = PendingBlockFill::new(limits(false));
    let mut included = 0;
    for gas_limit in [30u64, 40, 50, 20, 10, 5, 1] {
        let t = PoolTxInfo { gas_limit, is_private: false, blob_gas: Some(3) };
        if fill.before_execution(&t) == PreExecution::Execute {
            fill.after_execution(
                &t,
                TxExecution::Executed { gas_used: gas_limit, regular_gas_used: 0, state_gas_used: 0 },
            );
            included += 1;
        }
        assert!(fill.gas.cumulative_tx_gas_used <= 100);
        assert!(fill.gas.sum_blob_gas_used <= 10);
    }
    assert_eq!(included, 3);
    assert_eq!(fill.gas.cumulative_tx_gas_used, 90);
    assert_eq!(fill.gas.sum_blob_gas_used, 9);
}

#[test]
fn fill_includes_executed_transactions_in_pool_order() {
    let mut fill = PendingBlockFill::new(limits(false));
    let pool = [
        PoolTxInfo { gas_limit: 10, is_private: false, blob_gas: Some(4) },
        PoolTxInfo { gas_limit: 10, is_private: true, blob_gas: None },
        PoolTxInfo { gas_limit: 10, is_private: false, blob_gas: Some(2) },
        PoolTxInfo { gas_limit: 95, is_private: false, blob_gas: None },
        PoolTxInfo { gas_limit: 10, is_private: false, blob_gas: Some(3) },
    ];
    let results = [
        TxExecution::Executed { gas_used: 7, regular_gas_used: 7, state_gas_used: 0 },
        TxExecution::Executed { gas_used: 7, regular_gas_used: 7, state_gas_used: 0 },
        TxExecution::NonceTooLow,
        TxExecution::Executed { gas_used: 7, regular_gas_used: 7, state_gas_used: 0 },
        TxExecution::Executed { gas_used: 8, regular_gas_used: 8, state_gas_used: 0 },
    ];
    let mut included = Vec::new();
    for (i, t) in pool.iter().enumerate() {
        if fill.before_execution(t) != PreExecution::Execute {
            continue;
        }
        if let PostExecution::Included { .. } = fill.after_execution(t, results[i]) {
            included.push(i);
        }
    }
    assert_eq!(included, vec![0, 4]);
    assert_eq!(fill.gas.sum_blob_gas_used, 7);
    assert_eq!(fill.gas.cumulative_tx_gas_used, 15);
}
