//! Random values from `alloy_primitives`, for the fields of locally built blocks that are
//! random by design.

use vstd::prelude::*;

verus! {

/// `B256::random` of `alloy_primitives`: 32 bytes from the system's cryptographic random
/// source. Nothing is stated of them; it panics only where that source fails.
#[verifier::external_body]
pub(crate) fn random_hash() -> [u8; 32] {
    alloy_primitives::B256::random().0
}

/// `Address::random` of `alloy_primitives`: 20 bytes from the system's cryptographic random
/// source. Nothing is stated of them; it panics only where that source fails.
#[verifier::external_body]
pub(crate) fn random_address() -> [u8; 20] {
    alloy_primitives::Address::random().0 .0
}

} // verus!
