use std::sync::Arc;

use rsil::payload::{
    ensure_well_formed_fields, ensure_well_formed_sidecar_fields,
    ensure_well_formed_transactions_field, merge_blocks, BlockSummary, ForkSchedule,
    LocalPayloadAttributesBuilder, PayloadError,
};

fn schedule() -> ForkSchedule {
    ForkSchedule { shanghai_time: Some(0), cancun_time: Some(150), amsterdam_time: None }
}

#[test]
fn payload_attributes_follow_the_forks() {
    let builder = LocalPayloadAttributesBuilder::new(Arc::new(schedule()));
    assert!(builder.enforce_increasing_timestamp);
    let a = builder.attributes_with(200, 100, [1u8; 32], [2u8; 20], [3u8; 32]);
    assert_eq!(a.timestamp, 201);
    assert_eq!(a.withdrawals, Some(vec![]));
    assert_eq!(a.parent_beacon_block_root, Some([3u8; 32]));
    assert_eq!(a.slot_number, None);
    let b = builder.attributes_with(100, 120, [1u8; 32], [2u8; 20], [3u8; 32]);
    assert_eq!(b.timestamp, 120);
    assert_eq!(b.parent_beacon_block_root, None);
}

#[test]
fn payload_attributes_with_fresh_random_fields() {
    let builder = LocalPayloadAttributesBuilder::new(Arc::new(schedule()));
    let a = builder.build(200, 100);
    assert_eq!(a.timestamp, 201);
    assert_eq!(a.withdrawals, Some(vec![]));
    assert!(a.parent_beacon_block_root.is_some());
    assert_eq!(a.slot_number, None);
    let b = builder.build(100, 120);
    assert_eq!(b.timestamp, 120);
    assert_eq!(b.parent_beacon_block_root, None);
}

#[test]
fn payload_attributes_without_increasing_timestamps() {
    let schedule = ForkSchedule { amsterdam_time: Some(10), ..schedule() };
    let builder = LocalPayloadAttributesBuilder::new(Arc::new(schedule)).without_increasing_timestamp();
    assert!(!builder.enforce_increasing_timestamp);
    let a = builder.attributes_with(200, 100, [1u8; 32], [2u8; 20], [3u8; 32]);
    assert_eq!(a.timestamp, 100);
    assert_eq!(a.slot_number, Some(0));
    assert_eq!(a.prev_randao, [1u8; 32]);
    assert_eq!(a.suggested_fee_recipient, [2u8; 20]);
}

#[test]
fn prague_well_formedness() {
    assert_eq!(ensure_well_formed_sidecar_fields(true, false), Err(PayloadError::PrePragueBlockRequests));
    assert_eq!(ensure_well_formed_sidecar_fields(true, true), Ok(()));
    assert_eq!(ensure_well_formed_sidecar_fields(false, false), Ok(()));
    assert_eq!(
        ensure_well_formed_transactions_field(&[0, 2, 4], false),
        Err(PayloadError::PrePragueBlockWithEip7702Transactions)
    );
    assert_eq!(ensure_well_formed_transactions_field(&[0, 2, 4], true), Ok(()));
    assert_eq!(ensure_well_formed_transactions_field(&[0, 2, 3], false), Ok(()));
    assert_eq!(
        ensure_well_formed_fields(&[4], true, false),
        Err(PayloadError::PrePragueBlockRequests)
    );
    assert_eq!(
        ensure_well_formed_fields(&[4], false, false),
        Err(PayloadError::PrePragueBlockWithEip7702Transactions)
    );
}

#[test]
fn big_block_merge() {
    let blocks = vec![
        BlockSummary { number: 1, hash: [1u8; 32], parent_hash: [0u8; 32], gas_used: 10, gas_limit: 100, transactions: vec![1, 2] },
        BlockSummary { number: 2, hash: [2u8; 32], parent_hash: [1u8; 32], gas_used: 20, gas_limit: 100, transactions: vec![3] },
        BlockSummary { number: 3, hash: [3u8; 32], parent_hash: [2u8; 32], gas_used: 5, gas_limit: 50, transactions: vec![] },
    ];
    let merged = merge_blocks(blocks, 42);
    assert_eq!(merged.number, 42);
    assert_eq!(merged.hash, [3u8; 32]);
    assert_eq!(merged.parent_hash, [0u8; 32]);
    assert_eq!(merged.gas_used, 35);
    assert_eq!(merged.gas_limit, 250);
    assert_eq!(merged.transactions, vec![1, 2, 3]);
}
