//! The ledger host's vectors, as the contract uses them.
//!
//! `soroban_sdk::Vec` is a handle on an immutable vector that lives in the
//! host: reading goes through the handle, and appending leaves the handle
//! pointing at a new vector. Two item types occur here: the integers that make
//! up an address, and the integers that make up one recorded price.
//!
//! The host meters every call. An invocation that exhausts its budget is
//! aborted as a whole, as a process is that runs out of memory; the contracts
//! below describe the calls that return.

use vstd::prelude::*;

verus! {

/// The ledger host.
#[verifier::external_type_specification]
#[verifier::external_body]
pub struct ExHostEnv(soroban_sdk::Env);

/// A vector that lives in the ledger host.
#[verifier::external_type_specification]
#[verifier::external_body]
#[verifier::reject_recursive_types(T)]
pub struct ExHostVec<T>(soroban_sdk::Vec<T>);

/// The integers of an address: its kind, and the high and the low half of its
/// 32-byte identifier.
pub type AddressItem = (u32, u128, u128);

/// The integers of a recorded price: price, decimals and timestamp, then the
/// integers of the source's address.
pub type PriceItem = (i128, u32, u64, u32, u128, u128);

/// What a host vector of addresses holds, in order.
pub uninterp spec fn address_items(v: soroban_sdk::Vec<(u32, u128, u128)>) -> Seq<(u32, u128, u128)>;

/// Whether every value in a host vector of addresses is a triple of the three
/// integer types. The host does not check this when a vector arrives from
/// outside the contract.
pub uninterp spec fn address_items_typed(v: soroban_sdk::Vec<(u32, u128, u128)>) -> bool;

/// What a host vector of recorded prices holds, in order.
pub uninterp spec fn price_items(v: soroban_sdk::Vec<(i128, u32, u64, u32, u128, u128)>) -> Seq<
    (i128, u32, u64, u32, u128, u128),
>;

/// Whether every value in a host vector of recorded prices is a tuple of the
/// six integer types.
pub uninterp spec fn price_items_typed(
    v: soroban_sdk::Vec<(i128, u32, u64, u32, u128, u128)>,
) -> bool;

/// `soroban_sdk::Vec::new`: a vector with no items.
#[verifier::external_body]
pub(crate) fn new_address_vec(host: &soroban_sdk::Env) -> (v: soroban_sdk::Vec<AddressItem>)
    ensures
        address_items(v) == Seq::<AddressItem>::empty(),
        address_items_typed(v),
{
    soroban_sdk::Vec::new(host)
}

/// `soroban_sdk::Vec::len`: the number of items.
#[verifier::external_body]
pub(crate) fn address_vec_len(v: &soroban_sdk::Vec<AddressItem>) -> (n: u32)
    ensures
        n == address_items(*v).len(),
{
    v.len()
}

/// `soroban_sdk::Vec::get`: the item at a position, or `None` past the end. It
/// panics on a value that is not of the item type, which the precondition
/// leaves out.
#[verifier::external_body]
pub(crate) fn address_vec_get(v: &soroban_sdk::Vec<AddressItem>, i: u32) -> (item: Option<
    AddressItem,
>)
    requires
        address_items_typed(*v),
    ensures
        i < address_items(*v).len() ==> item == Some(address_items(*v)[i as int]),
        i >= address_items(*v).len() ==> item is None,
{
    v.get(i)
}

/// `soroban_sdk::Vec::push_back`: the item joins at the end, the others stay. A
/// host vector counts its items in a `u32`.
#[verifier::external_body]
pub(crate) fn address_vec_push_back(v: &mut soroban_sdk::Vec<AddressItem>, item: AddressItem)
    requires
        address_items(*old(v)).len() < u32::MAX,
    ensures
        address_items(*final(v)) == address_items(*old(v)).push(item),
        address_items_typed(*old(v)) ==> address_items_typed(*final(v)),
{
    v.push_back(item)
}

/// `soroban_sdk::Vec::clone`: another handle on the same vector.
#[verifier::external_body]
pub(crate) fn address_vec_clone(v: &soroban_sdk::Vec<AddressItem>) -> (w: soroban_sdk::Vec<
    AddressItem,
>)
    ensures
        address_items(w) == address_items(*v),
        address_items_typed(*v) ==> address_items_typed(w),
{
    v.clone()
}

/// `soroban_sdk::Vec::new`: a vector with no items.
#[verifier::external_body]
pub(crate) fn new_price_vec(host: &soroban_sdk::Env) -> (v: soroban_sdk::Vec<PriceItem>)
    ensures
        price_items(v) == Seq::<PriceItem>::empty(),
        price_items_typed(v),
{
    soroban_sdk::Vec::new(host)
}

/// `soroban_sdk::Vec::len`: the number of items.
#[verifier::external_body]
pub(crate) fn price_vec_len(v: &soroban_sdk::Vec<PriceItem>) -> (n: u32)
    ensures
        n == price_items(*v).len(),
{
    v.len()
}

/// `soroban_sdk::Vec::get`: the item at a position, or `None` past the end. It
/// panics on a value that is not of the item type, which the precondition
/// leaves out.
#[verifier::external_body]
pub(crate) fn price_vec_get(v: &soroban_sdk::Vec<PriceItem>, i: u32) -> (item: Option<PriceItem>)
    requires
        price_items_typed(*v),
    ensures
        i < price_items(*v).len() ==> item == Some(price_items(*v)[i as int]),
        i >= price_items(*v).len() ==> item is None,
{
    v.get(i)
}

/// `soroban_sdk::Vec::push_back`: the item joins at the end, the others stay. A
/// host vector counts its items in a `u32`.
#[verifier::external_body]
pub(crate) fn price_vec_push_back(v: &mut soroban_sdk::Vec<PriceItem>, item: PriceItem)
    requires
        price_items(*old(v)).len() < u32::MAX,
    ensures
        price_items(*final(v)) == price_items(*old(v)).push(item),
        price_items_typed(*old(v)) ==> price_items_typed(*final(v)),
{
    v.push_back(item)
}

/// `soroban_sdk::Vec::clone`: another handle on the same vector.
#[verifier::external_body]
pub(crate) fn price_vec_clone(v: &soroban_sdk::Vec<PriceItem>) -> (w: soroban_sdk::Vec<PriceItem>)
    ensures
        price_items(w) == price_items(*v),
        price_items_typed(*v) ==> price_items_typed(w),
{
    v.clone()
}

} // verus!
