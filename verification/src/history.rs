//! The prices recorded of one asset.

use crate::address::Address;
use crate::host::{
    new_price_vec, price_vec_clone, price_vec_get, price_vec_len, price_vec_push_back, PriceItem,
};
#[allow(unused_imports)]
use crate::host::{price_items, price_items_typed};
use crate::types::PricePoint;
use vstd::prelude::*;

verus! {

impl PricePoint {
    /// The recorded price that a host item stands for.
    pub open spec fn of_item(item: PriceItem) -> PricePoint {
        PricePoint {
            price: item.0,
            decimals: item.1,
            timestamp: item.2,
            source: Address { kind: item.3, hi: item.4, lo: item.5 },
        }
    }
}

/// The prices recorded of one asset, the oldest first, held in a host vector.
#[derive(Debug)]
pub struct PriceLog {
    items: soroban_sdk::Vec<PriceItem>,
}

impl View for PriceLog {
    type V = Seq<PricePoint>;

    closed spec fn view(&self) -> Seq<PricePoint> {
        price_items(self.items).map_values(|item: PriceItem| PricePoint::of_item(item))
    }
}

impl Clone for PriceLog {
    fn clone(&self) -> (log: PriceLog)
        ensures
            log@ == self@,
    {
        proof {
            use_type_invariant(self);
        }
        PriceLog { items: price_vec_clone(&self.items) }
    }
}

impl PriceLog {
    #[verifier::type_invariant]
    spec fn typed(self) -> bool {
        price_items_typed(self.items)
    }

    /// A log with no prices.
    pub fn new(host: &soroban_sdk::Env) -> (log: PriceLog)
        ensures
            log@ == Seq::<PricePoint>::empty(),
    {
        let log = PriceLog { items: new_price_vec(host) };
        assert(log@ =~= Seq::<PricePoint>::empty());
        log
    }

    /// The number of prices in the log.
    pub fn len(&self) -> (n: u32)
        ensures
            n == self@.len(),
    {
        price_vec_len(&self.items)
    }

    /// The price at position `i`, or `None` past the end.
    pub fn get(&self, i: u32) -> (point: Option<PricePoint>)
        ensures
            i < self@.len() ==> point == Some(self@[i as int]),
            i >= self@.len() ==> point is None,
    {
        proof {
            use_type_invariant(self);
        }
        match price_vec_get(&self.items, i) {
            Some(item) => Some(
                PricePoint {
                    price: item.0,
                    decimals: item.1,
                    timestamp: item.2,
                    source: Address { kind: item.3, hi: item.4, lo: item.5 },
                },
            ),
            None => None,
        }
    }

    /// The log with `point` added at the end.
    pub fn push_back(self, point: PricePoint) -> (log: PriceLog)
        requires
            self@.len() < u32::MAX,
        ensures
            log@ == self@.push(point),
    {
        proof {
            use_type_invariant(&self);
        }
        let source = point.source;
        let mut items = self.items;
        price_vec_push_back(
            &mut items,
            (point.price, point.decimals, point.timestamp, source.kind, source.hi, source.lo),
        );
        let log = PriceLog { items };
        assert(log@ =~= self@.push(point));
        log
    }
}

} // verus!
