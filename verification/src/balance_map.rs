//! The map of account balances that `rsil_getBalanceChangesInBlock` answers with:
//! `alloy_primitives`' `AddressMap`, held behind a few calls whose contracts Verus believes.

use vstd::prelude::*;

verus! {

/// Account balances by address, held in an `alloy_primitives` `AddressMap` of `U256` balances
/// (a std `HashMap` keyed by `Address`). Verus does not see inside it: what it holds is
/// `balance_map_contents`, and each call on it below states what it does to that.
#[verifier::external_body]
pub struct BalanceMap {
    map: alloy_primitives::map::AddressMap<alloy_primitives::U256>,
}

/// What a balance map holds: each address with its balance, as 32 big-endian bytes.
pub uninterp spec fn balance_map_contents(m: BalanceMap) -> Map<[u8; 20], [u8; 32]>;

/// The map that holds no balance.
pub open spec fn no_balances() -> Map<[u8; 20], [u8; 32]> {
    Map::empty()
}

impl View for BalanceMap {
    type V = Map<[u8; 20], [u8; 32]>;

    open spec fn view(&self) -> Map<[u8; 20], [u8; 32]> {
        balance_map_contents(*self)
    }
}

/// `AddressMap::default`, a `HashMap` with `alloy_primitives`' address hasher: an empty map.
#[verifier::external_body]
pub(crate) fn balance_map_empty() -> (r: BalanceMap)
    ensures
        balance_map_contents(r) == no_balances(),
{
    BalanceMap { map: alloy_primitives::map::AddressMap::default() }
}

/// `HashMap::insert` on the map, with the address as an `Address` and the balance as the
/// `U256` of its big-endian bytes: the address now maps to the balance, and every other address
/// keeps its own.
#[verifier::external_body]
pub(crate) fn balance_map_insert(m: &mut BalanceMap, address: [u8; 20], balance: [u8; 32])
    ensures
        balance_map_contents(*final(m)) == balance_map_contents(*old(m)).insert(address, balance),
{
    m.map.insert(
        alloy_primitives::Address::new(address),
        alloy_primitives::U256::from_be_bytes(balance),
    );
}

/// `HashMap::get` on the map: the balance held for the address, as big-endian bytes, if it
/// holds one.
#[verifier::external_body]
fn balance_map_get(m: &BalanceMap, address: [u8; 20]) -> (r: Option<[u8; 32]>)
    ensures
        r == (if balance_map_contents(*m).dom().contains(address) {
            Some(balance_map_contents(*m)[address])
        } else {
            None
        }),
{
    match m.map.get(&alloy_primitives::Address::new(address)) {
        Some(balance) => Some(balance.to_be_bytes::<32>()),
        None => None,
    }
}

/// `HashMap::len` on the map: how many addresses it holds.
#[verifier::external_body]
fn balance_map_len(m: &BalanceMap) -> (r: usize)
    ensures
        r == balance_map_contents(*m).dom().len(),
{
    m.map.len()
}

impl BalanceMap {
    /// The balance held for an address, if the map holds one.
    pub fn get(&self, address: [u8; 20]) -> (r: Option<[u8; 32]>)
        ensures
            r == (if self@.dom().contains(address) {
                Some(self@[address])
            } else {
                None
            }),
    {
        balance_map_get(self, address)
    }

    /// How many addresses the map holds.
    pub fn len(&self) -> (r: usize)
        ensures
            r == self@.dom().len(),
    {
        balance_map_len(self)
    }
}

} // verus!
