//! Addresses and lists of them.

use crate::host::{
    address_vec_clone, address_vec_get, address_vec_len, address_vec_push_back, new_address_vec,
    AddressItem,
};
#[allow(unused_imports)]
use crate::host::{address_items, address_items_typed};
use vstd::prelude::*;

verus! {

/// An account or a contract on the ledger.
#[derive(Clone, Copy, Debug, PartialEq, Eq, Structural)]
pub struct Address {
    /// What the identifier names: 0 for an account, 1 for a contract.
    pub kind: u32,
    /// The first 16 bytes of the identifier.
    pub hi: u128,
    /// The last 16 bytes of the identifier.
    pub lo: u128,
}

impl View for Address {
    type V = Address;

    open spec fn view(&self) -> Address {
        *self
    }
}

impl Address {
    /// The address that a host item stands for.
    pub open spec fn of_item(item: AddressItem) -> Address {
        Address { kind: item.0, hi: item.1, lo: item.2 }
    }
}

/// An ordered list of addresses, held in a host vector.
#[derive(Debug)]
pub struct AddressList {
    items: soroban_sdk::Vec<AddressItem>,
}

impl View for AddressList {
    type V = Seq<Address>;

    closed spec fn view(&self) -> Seq<Address> {
        address_items(self.items).map_values(|item: AddressItem| Address::of_item(item))
    }
}

impl Clone for AddressList {
    fn clone(&self) -> (list: AddressList)
        ensures
            list@ == self@,
    {
        proof {
            use_type_invariant(self);
        }
        AddressList { items: address_vec_clone(&self.items) }
    }
}

impl AddressList {
    #[verifier::type_invariant]
    spec fn typed(self) -> bool {
        address_items_typed(self.items)
    }

    /// A list with no addresses.
    pub fn new(host: &soroban_sdk::Env) -> (list: AddressList)
        ensures
            list@ == Seq::<Address>::empty(),
    {
        let list = AddressList { items: new_address_vec(host) };
        assert(list@ =~= Seq::<Address>::empty());
        list
    }

    /// The number of addresses in the list.
    pub fn len(&self) -> (n: u32)
        ensures
            n == self@.len(),
    {
        address_vec_len(&self.items)
    }

    /// The address at position `i`, or `None` past the end.
    pub fn get(&self, i: u32) -> (address: Option<Address>)
        ensures
            i < self@.len() ==> address == Some(self@[i as int]),
            i >= self@.len() ==> address is None,
    {
        proof {
            use_type_invariant(self);
        }
        match address_vec_get(&self.items, i) {
            Some(item) => Some(Address { kind: item.0, hi: item.1, lo: item.2 }),
            None => None,
        }
    }

    /// The list with `address` added at the end.
    pub fn push_back(self, address: Address) -> (list: AddressList)
        requires
            self@.len() < u32::MAX,
        ensures
            list@ == self@.push(address),
    {
        proof {
            use_type_invariant(&self);
        }
        let mut items = self.items;
        address_vec_push_back(&mut items, (address.kind, address.hi, address.lo));
        let list = AddressList { items };
        assert(list@ =~= self@.push(address));
        list
    }

    /// The list of the given addresses, in their order.
    pub fn from_addresses(host: &soroban_sdk::Env, addresses: &Vec<Address>) -> (list: AddressList)
        requires
            addresses@.len() <= u32::MAX,
        ensures
            list@ == addresses@,
    {
        let mut list = AddressList::new(host);
        let mut i: usize = 0;
        while i < addresses.len()
            invariant
                i <= addresses@.len() <= u32::MAX,
                list@ == addresses@.take(i as int),
            decreases addresses@.len() - i,
        {
            list = list.push_back(addresses[i]);
            i += 1;
            assert(list@ =~= addresses@.take(i as int));
        }
        assert(addresses@.take(i as int) =~= addresses@);
        list
    }

    /// The addresses of the list, in their order.
    pub fn to_addresses(&self) -> (addresses: Vec<Address>)
        ensures
            addresses@ == self@,
    {
        let mut addresses: Vec<Address> = Vec::new();
        let n: u32 = self.len();
        let mut i: u32 = 0;
        while i < n
            invariant
                i <= n == self@.len(),
                addresses@ == self@.take(i as int),
            decreases n - i,
        {
            if let Some(address) = self.get(i) {
                addresses.push(address);
            }
            i += 1;
            assert(addresses@ =~= self@.take(i as int));
        }
        assert(self@.take(i as int) =~= self@);
        addresses
    }

    /// The list without any occurrence of `address`, the others in their order.
    pub fn without(&self, host: &soroban_sdk::Env, address: &Address) -> (list: AddressList)
        ensures
            list@ == self@.filter(|a: Address| a != *address),
    {
        let ghost keep = |a: Address| a != *address;
        let mut list = AddressList::new(host);
        let n: u32 = self.len();
        let mut i: u32 = 0;
        proof {
            reveal(Seq::filter);
            assert(self@.take(0).filter(keep) =~= Seq::<Address>::empty());
        }
        while i < n
            invariant
                i <= n == self@.len(),
                keep == (|a: Address| a != *address),
                list@ == self@.take(i as int).filter(keep),
                list@.len() <= i,
            decreases n - i,
        {
            proof {
                reveal(Seq::filter);
                assert(self@.take(i + 1).drop_last() =~= self@.take(i as int));
            }
            if let Some(a) = self.get(i) {
                if a != *address {
                    list = list.push_back(a);
                }
            }
            i += 1;
        }
        assert(self@.take(i as int) =~= self@);
        list
    }
}

/// Whether `target` is in the list.
pub fn vec_contains_address(list: &AddressList, target: &Address) -> (found: bool)
    ensures
        found == list@.contains(*target),
{
    let n: u32 = list.len();
    let mut i: u32 = 0;
    while i < n
        invariant
            i <= n == list@.len(),
            forall|j: int| 0 <= j < i ==> list@[j] != *target,
        decreases n - i,
    {
        if let Some(address) = list.get(i) {
            if address == *target {
                return true;
            }
        }
        i += 1;
    }
    false
}

} // verus!
