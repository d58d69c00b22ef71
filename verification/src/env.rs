//! The environment of an invocation of the contract.

use crate::address::Address;
#[allow(unused_imports)]
use crate::calls::OracleCall;
#[allow(unused_imports)]
use crate::model::{OracleView, StorageView};
use crate::storage::Storage;
use crate::types::Effect;
#[allow(unused_imports)]
use crate::types::EffectView;
use vstd::prelude::*;

verus! {

/// What the contract sees of the ledger while it is invoked, and what it asks
/// of it.
pub struct OracleEnv {
    /// The host, in which vectors are made.
    pub host: soroban_sdk::Env,
    /// The contract's storage.
    pub storage: Storage,
    /// The address of the contract itself.
    pub contract: Address,
    /// The time of the ledger that the invocation is in.
    pub timestamp: u64,
    /// The addresses that authorized the invocation.
    pub authorized: Vec<Address>,
    /// What the ledger is asked to do, in order.
    pub effects: Vec<Effect>,
}

/// The model of a list of effects.
pub open spec fn effects_view(effects: Seq<Effect>) -> Seq<EffectView> {
    effects.map_values(|effect: Effect| effect@)
}

impl View for OracleEnv {
    type V = OracleView;

    open spec fn view(&self) -> OracleView {
        OracleView {
            storage: self.storage@,
            contract: self.contract,
            timestamp: self.timestamp,
            authorized: self.authorized@,
            effects: effects_view(self.effects@),
        }
    }
}

impl OracleEnv {
    /// The environment of a contract that was just deployed, before any
    /// invocation.
    pub fn new(host: soroban_sdk::Env, contract: Address) -> (env: OracleEnv)
        ensures
            env@ == OracleView::initial(contract),
    {
        let env = OracleEnv {
            host,
            storage: Storage::new(),
            contract,
            timestamp: 0,
            authorized: Vec::new(),
            effects: Vec::new(),
        };
        assert(env@ =~= OracleView::initial(contract));
        env
    }

    /// Starts an invocation at `timestamp` that the given addresses authorized.
    pub fn begin(&mut self, timestamp: u64, authorized: Vec<Address>)
        ensures
            final(self)@ == old(self)@.begun(timestamp, authorized@),
            old(self)@.steps_to(
                OracleCall::Begin { timestamp, authorized: authorized@ },
                final(self)@,
            ),
    {
        self.timestamp = timestamp;
        self.authorized = authorized;
        self.effects = Vec::new();
        assert(self@ =~= old(self)@.begun(timestamp, authorized@));
    }

    /// Asks the ledger for one thing more.
    pub fn publish(&mut self, effect: Effect)
        ensures
            final(self)@ == old(self)@.with_effect(effect@),
    {
        self.effects.push(effect);
        assert(self@.effects =~= old(self)@.effects.push(effect@));
    }

    /// Whether `address` authorized the invocation.
    pub fn has_authorized(&self, address: &Address) -> (r: bool)
        ensures
            r == self@.authorized.contains(*address),
    {
        let mut i: usize = 0;
        while i < self.authorized.len()
            invariant
                i <= self.authorized@.len(),
                forall|j: int| 0 <= j < i ==> self.authorized@[j] != *address,
            decreases self.authorized@.len() - i,
        {
            if self.authorized[i] == *address {
                return true;
            }
            i += 1;
        }
        false
    }
}

} // verus!
