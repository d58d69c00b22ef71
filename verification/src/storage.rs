//! The contract's storage, one pair of functions for each kind of entry.

use crate::address::Address;
use crate::errors::OracleError;
use crate::history::PriceLog;
#[allow(unused_imports)]
use crate::model::StorageView;
use crate::table::Table;
use crate::types::{
    copy_bytes, MultiSigConfig, MultiSigProposal, PricePoint, SourceReputation,
};
#[allow(unused_imports)]
use crate::types::MultiSigConfigView;
use vstd::prelude::*;

verus! {

/// The contract's storage.
#[derive(Debug)]
pub struct Storage {
    admin: Option<Address>,
    layout_version: Option<u32>,
    paused: bool,
    sources: Table<Address, String>,
    trusted: Table<String, bool>,
    deviation_threshold: Option<u32>,
    latest: Table<String, PricePoint>,
    assets: Vec<String>,
    history: Table<String, PriceLog>,
    reputations: Table<Address, SourceReputation>,
    batch_nonce: u64,
    batch_roots: Table<u64, Vec<u8>>,
    applied: Table<(u64, u32), bool>,
    multisig: Option<MultiSigConfig>,
    proposal_count: u32,
    proposals: Table<u32, MultiSigProposal>,
    query_fee: i128,
    whitelist: Table<Address, bool>,
    fee_balance: i128,
    stakes: Table<Address, i128>,
    slash_counts: Table<Address, u32>,
}

/// The model of an optional configuration.
pub open spec fn config_view(config: Option<MultiSigConfig>) -> Option<MultiSigConfigView> {
    match config {
        Some(c) => Some(c@),
        None => None,
    }
}

/// The model of a list of names.
pub open spec fn names_view(names: Seq<String>) -> Seq<Seq<char>> {
    names.map_values(|name: String| name@)
}

impl View for Storage {
    type V = StorageView;

    closed spec fn view(&self) -> StorageView {
        StorageView {
            admin: self.admin,
            layout_version: self.layout_version,
            paused: self.paused,
            sources: self.sources@,
            trusted: self.trusted@,
            deviation_threshold: self.deviation_threshold,
            latest: self.latest@,
            assets: names_view(self.assets@),
            history: self.history@,
            reputations: self.reputations@,
            batch_nonce: self.batch_nonce,
            batch_roots: self.batch_roots@,
            applied: self.applied@.dom(),
            multisig: config_view(self.multisig),
            proposal_count: self.proposal_count,
            proposals: self.proposals@,
            query_fee: self.query_fee,
            whitelist: self.whitelist@,
            fee_balance: self.fee_balance,
            stakes: self.stakes@,
            slash_counts: self.slash_counts@,
        }
    }
}

impl Storage {
    /// The storage of a contract that was just deployed.
    pub fn new() -> (storage: Storage)
        ensures
            storage@ == StorageView::initial(),
    {
        let storage = Storage {
            admin: None,
            layout_version: None,
            paused: false,
            sources: Table::new(),
            trusted: Table::new(),
            deviation_threshold: None,
            latest: Table::new(),
            assets: Vec::new(),
            history: Table::new(),
            reputations: Table::new(),
            batch_nonce: 0,
            batch_roots: Table::new(),
            applied: Table::new(),
            multisig: None,
            proposal_count: 0,
            proposals: Table::new(),
            query_fee: 0,
            whitelist: Table::new(),
            fee_balance: 0,
            stakes: Table::new(),
            slash_counts: Table::new(),
        };
        assert(storage@ =~= StorageView::initial());
        storage
    }


    /// Whether the contract is initialized.
    pub fn has_admin(&self) -> (r: bool)
        ensures
            r == (self@.admin is Some),
    {
        self.admin.is_some()
    }

    /// The administrator.
    pub fn get_admin(&self) -> (admin: Option<Address>)
        ensures
            admin == self@.admin,
    {
        self.admin
    }

    /// Makes `admin` the administrator.
    pub fn set_admin(&mut self, admin: &Address)
        ensures
            final(self)@ == (StorageView { admin: Some(*admin), ..old(self)@ }),
    {
        self.admin = Some(*admin);
    }

    /// Accepts the administrator and nobody else.
    pub fn verify_admin(&self, caller: &Address) -> (r: Result<(), OracleError>)
        ensures
            match self@.admin_refusal(*caller) {
                Some(e) => r == Err::<(), OracleError>(e),
                None => r is Ok,
            },
    {
        match self.admin {
            Some(admin) => if admin == *caller {
                Ok(())
            } else {
                Err(OracleError::Unauthorized)
            },
            None => Err(OracleError::Unauthorized),
        }
    }

    /// Notes the version of the storage layout.
    pub fn set_storage_layout_version(&mut self, version: u32)
        ensures
            final(self)@ == (StorageView { layout_version: Some(version), ..old(self)@ }),
    {
        self.layout_version = Some(version);
    }

    /// The version of the storage layout.
    pub fn get_storage_layout_version(&self) -> (version: Option<u32>)
        ensures
            version == self@.layout_version,
    {
        self.layout_version
    }

    /// Whether the emergency pause is on.
    pub fn is_paused(&self) -> (r: bool)
        ensures
            r == self@.paused,
    {
        self.paused
    }

    /// Turns the emergency pause on or off.
    pub fn set_paused(&mut self, paused: bool)
        ensures
            final(self)@ == (StorageView { paused, ..old(self)@ }),
    {
        self.paused = paused;
    }

    /// Whether `source` is registered.
    pub fn is_authorized_source(&self, source: &Address) -> (r: bool)
        ensures
            r == self@.sources.contains_key(*source),
    {
        self.sources.get(source).is_some()
    }

    /// The name under which `source` is registered.
    pub fn get_source_name(&self, source: &Address) -> (name: Option<String>)
        ensures
            match name {
                Some(n) => self@.sources.contains_key(*source) && n@ == self@.sources[*source],
                None => !self@.sources.contains_key(*source),
            },
    {
        match self.sources.get(source) {
            Some(name) => Some(name.clone()),
            None => None,
        }
    }

    /// Registers `source` under `name`.
    pub fn add_source(&mut self, source: &Address, name: &String)
        ensures
            final(self)@ == (StorageView {
                sources: old(self)@.sources.insert(*source, name@),
                ..old(self)@
            }),
    {
        self.sources.insert(*source, name.clone());
    }

    /// Strikes `source` off.
    pub fn remove_source(&mut self, source: &Address)
        ensures
            final(self)@ == (StorageView {
                sources: old(self)@.sources.remove(*source),
                ..old(self)@
            }),
    {
        self.sources.remove(source);
    }

    /// The number of registered sources.
    pub fn get_source_count(&self) -> (n: u64)
        ensures
            self@.sources.dom().finite(),
            n == self@.sources.dom().len(),
    {
        self.sources.len() as u64
    }

    /// Whether `asset` is marked as trusted.
    pub fn is_trusted_asset(&self, asset: &String) -> (r: bool)
        ensures
            r == self@.is_trusted(asset@),
    {
        match self.trusted.get(asset) {
            Some(trusted) => *trusted,
            None => false,
        }
    }

    /// Marks `asset` as trusted, or as not trusted.
    pub fn set_trusted_asset(&mut self, asset: &String, trusted: bool)
        ensures
            final(self)@ == (StorageView {
                trusted: old(self)@.trusted.insert(asset@, trusted),
                ..old(self)@
            }),
    {
        self.trusted.insert(asset.clone(), trusted);
    }

    /// The largest admitted deviation, in basis points.
    pub fn get_deviation_threshold(&self) -> (threshold_bps: Option<u32>)
        ensures
            threshold_bps == self@.deviation_threshold,
    {
        self.deviation_threshold
    }

    /// Sets the largest admitted deviation, in basis points.
    pub fn set_deviation_threshold(&mut self, threshold_bps: u32)
        ensures
            final(self)@ == (StorageView {
                deviation_threshold: Some(threshold_bps),
                ..old(self)@
            }),
    {
        self.deviation_threshold = Some(threshold_bps);
    }

    /// The latest price of `asset`.
    pub fn get_latest_price(&self, asset: &String) -> (point: Option<PricePoint>)
        ensures
            match point {
                Some(p) => self@.latest.contains_key(asset@) && p == self@.latest[asset@],
                None => !self@.latest.contains_key(asset@),
            },
    {
        match self.latest.get(asset) {
            Some(point) => Some(*point),
            None => None,
        }
    }

    /// Makes `point` the latest price of `asset`.
    pub fn set_latest_price(&mut self, asset: &String, point: PricePoint)
        ensures
            final(self)@ == old(self)@.with_latest(asset@, point),
    {
        if self.latest.get(asset).is_none() {
            self.assets.push(asset.clone());
            assert(names_view(self.assets@) =~= names_view(old(self).assets@).push(asset@));
        }
        self.latest.insert(asset.clone(), point);
    }

    /// The assets that have a price, in the order of their first ones.
    pub fn get_all_assets(&self) -> (assets: Vec<String>)
        ensures
            names_view(assets@) == self@.assets,
    {
        let mut assets: Vec<String> = Vec::new();
        let mut i: usize = 0;
        while i < self.assets.len()
            invariant
                i <= self.assets@.len(),
                names_view(assets@) == names_view(self.assets@).take(i as int),
            decreases self.assets@.len() - i,
        {
            let ghost before = assets@;
            assets.push(self.assets[i].clone());
            assert(names_view(assets@) =~= names_view(before).push(self.assets@[i as int]@));
            assert(names_view(self.assets@).take(i + 1) =~= names_view(self.assets@).take(
                i as int,
            ).push(self.assets@[i as int]@));
            i += 1;
        }
        assert(names_view(self.assets@).take(i as int) =~= names_view(self.assets@));
        assets
    }

    /// The recorded prices of `asset`, the oldest first.
    pub fn get_price_history(&self, host: &soroban_sdk::Env, asset: &String) -> (log: PriceLog)
        ensures
            log@ == self@.history_of(asset@),
    {
        match self.history.get(asset) {
            Some(log) => log.clone(),
            None => PriceLog::new(host),
        }
    }

    /// Adds `point` at the end of the history of `asset`.
    pub fn append_history(&mut self, host: &soroban_sdk::Env, asset: &String, point: PricePoint)
        requires
            old(self)@.history_of(asset@).len() < u32::MAX,
        ensures
            final(self)@ == old(self)@.with_history(asset@, point),
    {
        let log = self.get_price_history(host, asset);
        self.history.insert(asset.clone(), log.push_back(point));
    }

    /// The reputation record of `source`.
    pub fn get_source_reputation(&self, source: &Address) -> (reputation: Option<SourceReputation>)
        ensures
            match reputation {
                Some(rep) => self@.reputations.contains_key(*source) && rep@
                    == self@.reputations[*source],
                None => !self@.reputations.contains_key(*source),
            },
    {
        match self.reputations.get(source) {
            Some(reputation) => Some(reputation.clone()),
            None => None,
        }
    }

    /// Keeps `reputation` as the record of `source`.
    pub fn set_source_reputation(&mut self, source: &Address, reputation: SourceReputation)
        ensures
            final(self)@ == (StorageView {
                reputations: old(self)@.reputations.insert(*source, reputation@),
                ..old(self)@
            }),
    {
        self.reputations.insert(*source, reputation);
    }

    /// Forgets the record of `source`.
    pub fn remove_source_reputation(&mut self, source: &Address)
        ensures
            final(self)@ == (StorageView {
                reputations: old(self)@.reputations.remove(*source),
                ..old(self)@
            }),
    {
        self.reputations.remove(source);
    }

    /// The root that was committed under `nonce`.
    pub fn get_batch_root(&self, nonce: u64) -> (root: Option<Vec<u8>>)
        ensures
            match root {
                Some(r) => self@.batch_roots.contains_key(nonce) && r@ == self@.batch_roots[nonce],
                None => !self@.batch_roots.contains_key(nonce),
            },
    {
        match self.batch_roots.get(&nonce) {
            Some(root) => Some(copy_bytes(root)),
            None => None,
        }
    }

    /// Commits `root` under `nonce`.
    pub fn set_batch_root(&mut self, nonce: u64, root: &Vec<u8>)
        ensures
            final(self)@ == (StorageView {
                batch_roots: old(self)@.batch_roots.insert(nonce, root@),
                ..old(self)@
            }),
    {
        self.batch_roots.insert(nonce, copy_bytes(root));
    }

    /// The nonce of the next batch.
    pub fn get_batch_nonce(&self) -> (nonce: u64)
        ensures
            nonce == self@.batch_nonce,
    {
        self.batch_nonce
    }

    /// Sets the nonce of the next batch.
    pub fn set_batch_nonce(&mut self, nonce: u64)
        ensures
            final(self)@ == (StorageView { batch_nonce: nonce, ..old(self)@ }),
    {
        self.batch_nonce = nonce;
    }

    /// Moves on to the next nonce, and gives it.
    pub fn increment_batch_nonce(&mut self) -> (nonce: u64)
        requires
            old(self)@.batch_nonce < u64::MAX,
        ensures
            nonce == old(self)@.batch_nonce + 1,
            final(self)@ == (StorageView { batch_nonce: nonce, ..old(self)@ }),
    {
        let nonce: u64 = self.batch_nonce + 1;
        self.set_batch_nonce(nonce);
        nonce
    }

    /// Notes that a leaf of a batch is applied; each leaf can be applied once.
    pub fn mark_batch_leaf_applied(
        &mut self,
        batch_nonce: u64,
        leaf_index: u32,
    ) -> (r: Result<(), OracleError>)
        ensures
            match r {
                Ok(()) => {
                    &&& !old(self)@.applied.contains((batch_nonce, leaf_index))
                    &&& final(self)@ == (StorageView {
                        applied: old(self)@.applied.insert((batch_nonce, leaf_index)),
                        ..old(self)@
                    })
                },
                Err(e) => {
                    &&& old(self)@.applied.contains((batch_nonce, leaf_index))
                    &&& e == OracleError::BatchEntryAlreadyApplied
                    &&& final(self)@ == old(self)@
                },
            },
    {
        if self.applied.get(&(batch_nonce, leaf_index)).is_some() {
            return Err(OracleError::BatchEntryAlreadyApplied);
        }
        self.applied.insert((batch_nonce, leaf_index), true);
        assert(self@.applied =~= old(self)@.applied.insert((batch_nonce, leaf_index)));
        Ok(())
    }

    /// Whether a leaf of a batch was applied.
    pub fn is_batch_leaf_applied(&self, batch_nonce: u64, leaf_index: u32) -> (r: bool)
        ensures
            r == self@.applied.contains((batch_nonce, leaf_index)),
    {
        self.applied.get(&(batch_nonce, leaf_index)).is_some()
    }

    /// The signers and their threshold.
    pub fn get_multisig_config(&self) -> (config: Option<MultiSigConfig>)
        ensures
            config_view(config) == self@.multisig,
    {
        match &self.multisig {
            Some(config) => Some(config.clone()),
            None => None,
        }
    }

    /// Sets the signers and their threshold.
    pub fn set_multisig_config(&mut self, config: MultiSigConfig)
        ensures
            final(self)@ == (StorageView { multisig: Some(config@), ..old(self)@ }),
    {
        self.multisig = Some(config);
    }

    /// The identifier of the next proposal.
    pub fn get_msig_proposal_count(&self) -> (n: u32)
        ensures
            n == self@.proposal_count,
    {
        self.proposal_count
    }

    /// Sets the identifier of the next proposal.
    pub fn set_proposal_count(&mut self, n: u32)
        ensures
            final(self)@ == (StorageView { proposal_count: n, ..old(self)@ }),
    {
        self.proposal_count = n;
    }

    /// The proposal `id`.
    pub fn get_multisig_proposal(&self, id: u32) -> (proposal: Option<MultiSigProposal>)
        ensures
            match proposal {
                Some(p) => self@.proposals.contains_key(id) && p@ == self@.proposals[id],
                None => !self@.proposals.contains_key(id),
            },
    {
        match self.proposals.get(&id) {
            Some(proposal) => Some(proposal.clone()),
            None => None,
        }
    }

    /// Keeps `proposal` under its identifier.
    pub fn set_multisig_proposal(&mut self, proposal: MultiSigProposal)
        ensures
            final(self)@ == old(self)@.with_proposal(proposal@),
    {
        self.proposals.insert(proposal.id, proposal);
    }

    /// The fee of a query.
    pub fn get_query_fee(&self) -> (fee: i128)
        ensures
            fee == self@.query_fee,
    {
        self.query_fee
    }

    /// Sets the fee of a query.
    pub fn set_query_fee(&mut self, fee: i128)
        ensures
            final(self)@ == (StorageView { query_fee: fee, ..old(self)@ }),
    {
        self.query_fee = fee;
    }

    /// Puts `addr` on the whitelist with `status`.
    pub fn set_whitelist(&mut self, addr: &Address, status: bool)
        ensures
            final(self)@ == (StorageView {
                whitelist: old(self)@.whitelist.insert(*addr, status),
                ..old(self)@
            }),
    {
        self.whitelist.insert(*addr, status);
    }

    /// The status with which `addr` is on the whitelist.
    pub fn get_whitelist(&self, addr: &Address) -> (status: Option<bool>)
        ensures
            match status {
                Some(s) => self@.whitelist.contains_key(*addr) && s == self@.whitelist[*addr],
                None => !self@.whitelist.contains_key(*addr),
            },
    {
        match self.whitelist.get(addr) {
            Some(status) => Some(*status),
            None => None,
        }
    }

    /// The fees that were collected and not withdrawn.
    pub fn get_fee_balance(&self) -> (balance: i128)
        ensures
            balance == self@.fee_balance,
    {
        self.fee_balance
    }

    /// Sets the fees that were collected and not withdrawn.
    pub fn set_fee_balance(&mut self, balance: i128)
        ensures
            final(self)@ == (StorageView { fee_balance: balance, ..old(self)@ }),
    {
        self.fee_balance = balance;
    }

    /// The stake of `source`.
    pub fn get_stake(&self, source: &Address) -> (stake: i128)
        ensures
            stake == self@.stake_of(*source),
    {
        match self.stakes.get(source) {
            Some(stake) => *stake,
            None => 0,
        }
    }

    /// Sets the stake of `source`.
    pub fn set_stake(&mut self, source: &Address, stake: i128)
        ensures
            final(self)@ == (StorageView {
                stakes: old(self)@.stakes.insert(*source, stake),
                ..old(self)@
            }),
    {
        self.stakes.insert(*source, stake);
    }

    /// How often `source` was slashed.
    pub fn get_slash_count(&self, source: &Address) -> (n: u32)
        ensures
            n == self@.slash_count_of(*source),
    {
        match self.slash_counts.get(source) {
            Some(n) => *n,
            None => 0,
        }
    }

    /// Sets how often `source` was slashed.
    pub fn set_slash_count(&mut self, source: &Address, n: u32)
        ensures
            final(self)@ == (StorageView {
                slash_counts: old(self)@.slash_counts.insert(*source, n),
                ..old(self)@
            }),
    {
        self.slash_counts.insert(*source, n);
    }
}

} // verus!
