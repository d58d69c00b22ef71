//! The entry points of the price oracle.
//!
//! An entry point that needs the authorization of an address states it as a
//! precondition, with the limits of the machine's integers and of the host's
//! vectors. Everything else that can stand in the way of a call is answered
//! with an [`OracleError`], and a refused call changes nothing.
//!
//! Four judgements are the deploying contract's own, and it hands them in as
//! functions: whether a price is too far from the previous one, how a
//! submission changes the reputation of its source, how a reputation fades, and
//! whether an inclusion proof leads to a root.

use crate::address::{vec_contains_address, Address, AddressList};
#[allow(unused_imports)]
use crate::calls::OracleCall;
use crate::env::OracleEnv;
use crate::errors::OracleError;
#[allow(unused_imports)]
use crate::model::{OracleView, StorageView};
#[allow(unused_imports)]
use crate::storage::{config_view, names_view};
use crate::types::{
    AssetPrice, BatchPriceEntry, Effect, MerkleProof, MultiSigConfig, MultiSigProposal,
    PriceDataPoint, PricePoint, ProposalAction, SourceReputation, TtlWindow,
};
#[allow(unused_imports)]
use crate::types::{EffectView, PriceDataPointView};
use crate::usd::calculate_usd_price;
use vstd::prelude::*;

verus! {

/// The version of the exported interface. It changes only with a breaking
/// change to the shape of an entry point.
pub const API_VERSION: u32 = 1;

/// The model of a list of recorded prices.
pub open spec fn data_points_view(points: Seq<PriceDataPoint>) -> Seq<PriceDataPointView> {
    points.map_values(|point: PriceDataPoint| point@)
}

/// Whether `verify_proof` can come to the verdict `holds` on an entry of a batch
/// with the given root.
pub open spec fn proof_verdict<V: Fn(&BatchPriceEntry, u32, &Vec<Vec<u8>>, &Vec<u8>) -> bool>(
    verify_proof: V,
    entry: BatchPriceEntry,
    proof: MerkleProof,
    root: Seq<u8>,
    holds: bool,
) -> bool {
    exists|r: Vec<u8>|
        #![trigger r@]
        r@ == root && call_ensures(
            verify_proof,
            (&entry, proof.leaf_index, &proof.siblings, &r),
            holds,
        )
}

/// Whether `verify_proof` can be asked about an entry of a batch with the given
/// root.
pub open spec fn proof_decidable<V: Fn(&BatchPriceEntry, u32, &Vec<Vec<u8>>, &Vec<u8>) -> bool>(
    verify_proof: V,
    entry: BatchPriceEntry,
    proof: MerkleProof,
    root: Seq<u8>,
) -> bool {
    forall|r: Vec<u8>|
        #![trigger r@]
        r@ == root ==> call_requires(
            verify_proof,
            (&entry, proof.leaf_index, &proof.siblings, &r),
        )
}

/// Whether `verify_proof`, where it is asked about an entry of a batch, can come to
/// the verdict `holds`. It is asked where the batch is committed and the price is
/// not negative.
pub open spec fn verdict_possible<V: Fn(&BatchPriceEntry, u32, &Vec<Vec<u8>>, &Vec<u8>) -> bool>(
    storage: StorageView,
    verify_proof: V,
    batch_nonce: u64,
    entry: BatchPriceEntry,
    proof: MerkleProof,
    holds: bool,
) -> bool {
    storage.batch_roots.contains_key(batch_nonce) && entry.price >= 0 ==> proof_verdict(
        verify_proof,
        entry,
        proof,
        storage.batch_roots[batch_nonce],
        holds,
    )
}

/// How a price of a batch is applied or refused, where `holds` says that its
/// inclusion proof holds.
pub open spec fn entry_settled(
    before: OracleView,
    after: OracleView,
    batch_nonce: u64,
    entry: BatchPriceEntry,
    leaf_index: u32,
    holds: bool,
    r: Result<PriceDataPoint, OracleError>,
) -> bool {
    match before.storage.entry_refusal(batch_nonce, entry.price, leaf_index, holds) {
        Some(e) => r == Err::<PriceDataPoint, OracleError>(e) && after == before,
        None => {
            &&& r is Ok
            &&& r->Ok_0@ == PriceDataPointView::of(entry.asset@, entry.recorded())
            &&& after == before.entry_applied(
                batch_nonce,
                leaf_index,
                entry.asset@,
                entry.recorded(),
            )
        },
    }
}

/// The price oracle.
pub struct PriceOracleContract;

impl PriceOracleContract {
    /// The version of the exported interface.
    pub fn get_api_version() -> (version: u32)
        ensures
            version == API_VERSION,
    {
        API_VERSION
    }

    /// Makes `admin` the administrator, once.
    pub fn initialize(env: &mut OracleEnv, admin: Address) -> (r: Result<(), OracleError>)
        ensures
            old(env)@.steps_to(
                OracleCall::Initialize { admin },
                final(env)@,
            ),
            match r {
                Err(e) => {
                    &&& old(env)@.storage.admin is Some
                    &&& e == OracleError::AlreadyInitialized
                    &&& final(env)@ == old(env)@
                },
                Ok(()) => {
                    &&& old(env)@.storage.admin is None
                    &&& final(env)@ == old(env)@.initialized(admin)
                },
            },
    {
        if env.storage.has_admin() {
            return Err(OracleError::AlreadyInitialized);
        }
        env.storage.set_admin(&admin);
        env.storage.set_storage_layout_version(1);
        Ok(())
    }

    /// Decides on a price submission, where `deviates` says that the price is too
    /// far from the previous one.
    pub fn admit_submission(
        env: &OracleEnv,
        source: &Address,
        asset: &String,
        price: i128,
        deviates: bool,
    ) -> (r: Result<(), OracleError>)
        ensures
            match env@.storage.submission_refusal(*source, asset@, price, deviates) {
                Some(e) => r == Err::<(), OracleError>(e),
                None => r is Ok,
            },
    {
        if env.storage.is_paused() {
            return Err(OracleError::ContractPaused);
        }
        if !env.storage.is_authorized_source(source) {
            return Err(OracleError::UnauthorizedSource);
        }
        if price < 0 {
            return Err(OracleError::InvalidPrice);
        }
        if deviates && env.storage.get_deviation_threshold().is_some()
            && env.storage.get_latest_price(asset).is_some() {
            return Err(OracleError::PriceDeviationTooLarge);
        }
        Ok(())
    }

    /// Records an admitted price, with the reputation that its source now has.
    pub fn record_submission(
        env: &mut OracleEnv,
        asset: &String,
        point: PricePoint,
        reputation: SourceReputation,
    ) -> (data_point: PriceDataPoint)
        requires
            old(env)@.storage.history_of(asset@).len() < u32::MAX,
        ensures
            data_point@ == PriceDataPointView::of(asset@, point),
            final(env)@ == old(env)@.price_submitted(asset@, point, reputation@),
    {
        env.storage.set_source_reputation(&point.source, reputation);
        env.storage.set_latest_price(asset, point);
        env.storage.append_history(&env.host, asset, point);
        env.publish(
            Effect::PriceSubmitted {
                asset: asset.clone(),
                source: point.source,
                price: point.price,
                timestamp: point.timestamp,
            },
        );
        PriceDataPoint::of(asset, point)
    }

    /// Submits a price of `asset`.
    ///
    /// The price is held against the latest one where a deviation threshold is
    /// set and there is a latest price; `deviation_exceeds` gets the new price, the
    /// latest price and the threshold in basis points. `update_reputation` gives
    /// the record of the source after this submission; it is asked while the
    /// latest price is still the previous one.
    pub fn submit_price<
        D: Fn(i128, i128, u32) -> bool,
        U: Fn(&OracleEnv, &Address, i128, &String, u64) -> SourceReputation,
    >(
        env: &mut OracleEnv,
        source: Address,
        asset: String,
        price: i128,
        decimals: u32,
        timestamp: u64,
        deviation_exceeds: D,
        update_reputation: U,
    ) -> (r: Result<PriceDataPoint, OracleError>)
        requires
            old(env)@.authorized.contains(source),
            old(env)@.storage.submission_refusal(source, asset@, price, false) is None ==> {
                &&& old(env)@.storage.history_of(asset@).len() < u32::MAX
                &&& old(env)@.storage.deviation_applies(asset@) ==> call_requires(
                    deviation_exceeds,
                    (
                        price,
                        old(env)@.storage.latest[asset@].price,
                        old(env)@.storage.deviation_threshold->0,
                    ),
                )
                &&& call_requires(
                    update_reputation,
                    (&*old(env), &source, price, &asset, timestamp),
                )
            },
        ensures
            exists|deviates: bool, reputation: Seq<u8>| #[trigger]
                old(env)@.steps_to(
                    OracleCall::SubmitPrice {
                        asset: asset@,
                        point: PricePoint { price, decimals, timestamp, source },
                        deviates,
                        reputation,
                    },
                    final(env)@,
                ),
            r is Ok ==> {
                &&& !old(env)@.storage.paused
                &&& old(env)@.storage.sources.contains_key(source)
                &&& price >= 0
            },
            r is Ok && old(env)@.storage.deviation_threshold is Some
                && old(env)@.storage.latest.contains_key(asset@) ==> call_ensures(
                deviation_exceeds,
                (
                    price,
                    old(env)@.storage.latest[asset@].price,
                    old(env)@.storage.deviation_threshold->0,
                ),
                false,
            ),
            r == Err::<PriceDataPoint, OracleError>(OracleError::PriceDeviationTooLarge) ==> {
                &&& old(env)@.storage.deviation_threshold is Some
                &&& old(env)@.storage.latest.contains_key(asset@)
                &&& call_ensures(
                    deviation_exceeds,
                    (
                        price,
                        old(env)@.storage.latest[asset@].price,
                        old(env)@.storage.deviation_threshold->0,
                    ),
                    true,
                )
            },
            match old(env)@.storage.submission_refusal(source, asset@, price, false) {
                Some(e) => {
                    &&& r == Err::<PriceDataPoint, OracleError>(e)
                    &&& final(env)@ == old(env)@
                },
                None => match r {
                    Err(e) => {
                        &&& e == OracleError::PriceDeviationTooLarge
                        &&& old(env)@.storage.deviation_applies(asset@)
                        &&& call_ensures(
                            deviation_exceeds,
                            (
                                price,
                                old(env)@.storage.latest[asset@].price,
                                old(env)@.storage.deviation_threshold->0,
                            ),
                            true,
                        )
                        &&& final(env)@ == old(env)@
                    },
                    Ok(data_point) => {
                        let point = PricePoint { price, decimals, timestamp, source };
                        &&& old(env)@.storage.deviation_applies(asset@) ==> call_ensures(
                            deviation_exceeds,
                            (
                                price,
                                old(env)@.storage.latest[asset@].price,
                                old(env)@.storage.deviation_threshold->0,
                            ),
                            false,
                        )
                        &&& data_point@ == PriceDataPointView::of(asset@, point)
                        &&& exists|reputation: SourceReputation|
                            {
                                &&& #[trigger] call_ensures(
                                    update_reputation,
                                    (&*old(env), &source, price, &asset, timestamp),
                                    reputation,
                                )
                                &&& final(env)@ == old(env)@.price_submitted(
                                    asset@,
                                    point,
                                    reputation@,
                                )
                            }
                    },
                },
            },
    {
        let point = PricePoint { price, decimals, timestamp, source };
        let ghost call = |deviates: bool, reputation: Seq<u8>|
            OracleCall::SubmitPrice { asset: asset@, point, deviates, reputation };
        if let Err(e) = Self::admit_submission(env, &source, &asset, price, false) {
            assert(old(env)@.steps_to(call(false, Seq::empty()), env@));
            return Err(e);
        }
        if let Some(threshold_bps) = env.storage.get_deviation_threshold() {
            if let Some(previous) = env.storage.get_latest_price(&asset) {
                if deviation_exceeds(price, previous.price, threshold_bps) {
                    assert(old(env)@.steps_to(call(true, Seq::empty()), env@));
                    return Err(OracleError::PriceDeviationTooLarge);
                }
            }
        }
        let reputation = update_reputation(&*env, &source, price, &asset, timestamp);
        let data_point = Self::record_submission(env, &asset, point, reputation);
        assert(old(env)@.steps_to(call(false, reputation@), env@));
        Ok(data_point)
    }

    /// Commits the Merkle root of a batch of prices, and gives the next nonce.
    ///
    /// The nonce must be the current one, so that no commitment can be replayed.
    pub fn submit_batch(env: &mut OracleEnv, source: Address, nonce: u64, root: Vec<u8>) -> (r:
        Result<u64, OracleError>)
        requires
            old(env)@.authorized.contains(source),
            old(env)@.storage.batch_refusal(source, nonce, root@) is None
                ==> old(env)@.storage.batch_nonce < u64::MAX,
        ensures
            old(env)@.steps_to(
                OracleCall::SubmitBatch { source, nonce, root: root@ },
                final(env)@,
            ),
            match old(env)@.storage.batch_refusal(source, nonce, root@) {
                Some(e) => {
                    &&& r == Err::<u64, OracleError>(e)
                    &&& final(env)@ == old(env)@
                },
                None => {
                    &&& r is Ok
                    &&& r->Ok_0 == nonce + 1
                    &&& final(env)@ == old(env)@.batch_submitted(source, nonce, root@)
                },
            },
    {
        if env.storage.is_paused() {
            return Err(OracleError::ContractPaused);
        }
        if !env.storage.is_authorized_source(&source) {
            return Err(OracleError::UnauthorizedSource);
        }
        if root.len() != 32 {
            return Err(OracleError::InvalidMerkleProof);
        }
        if nonce != env.storage.get_batch_nonce() {
            return Err(OracleError::BatchNonceMismatch);
        }
        env.storage.set_batch_root(nonce, &root);
        let new_nonce: u64 = env.storage.increment_batch_nonce();
        env.publish(Effect::BatchSubmitted { source, nonce, root });
        Ok(new_nonce)
    }

    /// Applies one price of a committed batch, where `holds` says that its
    /// inclusion proof leads to the committed root.
    pub fn settle_batch_entry(
        env: &mut OracleEnv,
        batch_nonce: u64,
        entry: &BatchPriceEntry,
        leaf_index: u32,
        holds: bool,
    ) -> (r: Result<PriceDataPoint, OracleError>)
        requires
            old(env)@.storage.entry_refusal(batch_nonce, entry.price, leaf_index, holds) is None
                ==> old(env)@.storage.history_of(entry.asset@).len() < u32::MAX,
        ensures
            old(env)@.steps_to(
                OracleCall::ApplyBatchEntry {
                    batch_nonce,
                    leaf_index,
                    asset: entry.asset@,
                    point: entry.recorded(),
                    holds,
                },
                final(env)@,
            ),
            entry_settled(old(env)@, final(env)@, batch_nonce, *entry, leaf_index, holds, r),
    {
        if env.storage.get_batch_root(batch_nonce).is_none() {
            return Err(OracleError::BatchRootNotFound);
        }
        if entry.price < 0 {
            return Err(OracleError::InvalidPrice);
        }
        if !holds {
            return Err(OracleError::InvalidMerkleProof);
        }
        if let Err(e) = env.storage.mark_batch_leaf_applied(batch_nonce, leaf_index) {
            return Err(e);
        }
        let point = entry.point();
        env.storage.set_latest_price(&entry.asset, point);
        env.storage.append_history(&env.host, &entry.asset, point);
        env.publish(
            Effect::BatchEntryApplied {
                asset: entry.asset.clone(),
                batch_nonce,
                price: entry.price,
            },
        );
        Ok(PriceDataPoint::of(&entry.asset, point))
    }

    /// Applies one price of a committed batch.
    ///
    /// No authorization is needed: the root was committed by a registered source,
    /// and the inclusion proof ties the price to it. Each leaf of a batch can be
    /// applied once.
    pub fn apply_batch_entry<V: Fn(&BatchPriceEntry, u32, &Vec<Vec<u8>>, &Vec<u8>) -> bool>(
        env: &mut OracleEnv,
        batch_nonce: u64,
        entry: BatchPriceEntry,
        proof: MerkleProof,
        verify_proof: V,
    ) -> (r: Result<PriceDataPoint, OracleError>)
        requires
            old(env)@.storage.batch_roots.contains_key(batch_nonce) && entry.price >= 0 ==> {
                &&& proof_decidable(
                    verify_proof,
                    entry,
                    proof,
                    old(env)@.storage.batch_roots[batch_nonce],
                )
            },
            old(env)@.storage.entry_refusal(batch_nonce, entry.price, proof.leaf_index, true)
                is None ==> old(env)@.storage.history_of(entry.asset@).len() < u32::MAX,
        ensures
            exists|holds: bool| #[trigger]
                old(env)@.steps_to(
                    OracleCall::ApplyBatchEntry {
                        batch_nonce,
                        leaf_index: proof.leaf_index,
                        asset: entry.asset@,
                        point: entry.recorded(),
                        holds,
                    },
                    final(env)@,
                ),
            r is Ok || r == Err::<PriceDataPoint, OracleError>(
                OracleError::BatchEntryAlreadyApplied,
            ) ==> {
                &&& old(env)@.storage.batch_roots.contains_key(batch_nonce)
                &&& entry.price >= 0
                &&& exists|root: Vec<u8>|
                    #![trigger root@]
                    root@ == old(env)@.storage.batch_roots[batch_nonce] && call_ensures(
                        verify_proof,
                        (&entry, proof.leaf_index, &proof.siblings, &root),
                        true,
                    )
            },
            r == Err::<PriceDataPoint, OracleError>(OracleError::InvalidMerkleProof) ==> {
                &&& old(env)@.storage.batch_roots.contains_key(batch_nonce)
                &&& entry.price >= 0
                &&& exists|root: Vec<u8>|
                    #![trigger root@]
                    root@ == old(env)@.storage.batch_roots[batch_nonce] && call_ensures(
                        verify_proof,
                        (&entry, proof.leaf_index, &proof.siblings, &root),
                        false,
                    )
            },
            exists|holds: bool| #[trigger]
                verdict_possible(
                    old(env)@.storage,
                    verify_proof,
                    batch_nonce,
                    entry,
                    proof,
                    holds,
                ) && entry_settled(
                    old(env)@,
                    final(env)@,
                    batch_nonce,
                    entry,
                    proof.leaf_index,
                    holds,
                    r,
                ),
    {
        let holds: bool = match env.storage.get_batch_root(batch_nonce) {
            Some(root) => if entry.price >= 0 {
                let verdict: bool = verify_proof(&entry, proof.leaf_index, &proof.siblings, &root);
                assert(root@ == env@.storage.batch_roots[batch_nonce]);
                verdict
            } else {
                false
            },
            None => false,
        };
        assert(verdict_possible(
            old(env)@.storage,
            verify_proof,
            batch_nonce,
            entry,
            proof,
            holds,
        ));
        Self::settle_batch_entry(env, batch_nonce, &entry, proof.leaf_index, holds)
    }

    /// The nonce of the next batch.
    pub fn get_batch_nonce(env: &OracleEnv) -> (nonce: u64)
        ensures
            nonce == env@.storage.batch_nonce,
    {
        env.storage.get_batch_nonce()
    }

    /// Whether a price belongs to a committed batch.
    pub fn verify_batch_proof<V: Fn(&BatchPriceEntry, u32, &Vec<Vec<u8>>, &Vec<u8>) -> bool>(
        env: &OracleEnv,
        batch_nonce: u64,
        entry: BatchPriceEntry,
        proof: MerkleProof,
        verify_proof: V,
    ) -> (holds: bool)
        requires
            env@.storage.batch_roots.contains_key(batch_nonce) ==> proof_decidable(
                verify_proof,
                entry,
                proof,
                env@.storage.batch_roots[batch_nonce],
            ),
        ensures
            if env@.storage.batch_roots.contains_key(batch_nonce) {
                proof_verdict(
                    verify_proof,
                    entry,
                    proof,
                    env@.storage.batch_roots[batch_nonce],
                    holds,
                )
            } else {
                !holds
            },
            holds ==> {
                &&& env@.storage.batch_roots.contains_key(batch_nonce)
                &&& exists|root: Vec<u8>|
                    #![trigger root@]
                    root@ == env@.storage.batch_roots[batch_nonce] && call_ensures(
                        verify_proof,
                        (&entry, proof.leaf_index, &proof.siblings, &root),
                        true,
                    )
            },
            !holds && env@.storage.batch_roots.contains_key(batch_nonce) ==> exists|root: Vec<u8>|
                #![trigger root@]
                root@ == env@.storage.batch_roots[batch_nonce] && call_ensures(
                    verify_proof,
                    (&entry, proof.leaf_index, &proof.siblings, &root),
                    false,
                ),
    {
        match env.storage.get_batch_root(batch_nonce) {
            Some(root) => {
                let verdict: bool = verify_proof(&entry, proof.leaf_index, &proof.siblings, &root);
                assert(root@ == env@.storage.batch_roots[batch_nonce]);
                verdict
            },
            None => false,
        }
    }

    /// Sets the largest admitted deviation, in basis points.
    pub fn set_deviation_threshold(env: &mut OracleEnv, admin: Address, threshold_bps: u32) -> (r:
        Result<(), OracleError>)
        requires
            old(env)@.authorized.contains(admin),
        ensures
            old(env)@.steps_to(
                OracleCall::SetDeviationThreshold { admin, threshold_bps },
                final(env)@,
            ),
            match old(env)@.storage.admin_refusal(admin) {
                Some(e) => r == Err::<(), OracleError>(e) && final(env)@ == old(env)@,
                None => {
                    &&& r is Ok
                    &&& final(env)@ == old(env)@.with_storage(
                        StorageView {
                            deviation_threshold: Some(threshold_bps),
                            ..old(env)@.storage
                        },
                    )
                },
            },
    {
        if let Err(e) = env.storage.verify_admin(&admin) {
            return Err(e);
        }
        env.storage.set_deviation_threshold(threshold_bps);
        Ok(())
    }

    /// The largest admitted deviation, in basis points.
    pub fn get_deviation_threshold(env: &OracleEnv) -> (threshold_bps: Option<u32>)
        ensures
            threshold_bps == env@.storage.deviation_threshold,
    {
        env.storage.get_deviation_threshold()
    }

    /// The reputation of `source`, faded by `apply_decay` to what it is worth now.
    pub fn get_source_reputation<F: Fn(&OracleEnv, SourceReputation) -> SourceReputation>(
        env: &OracleEnv,
        source: Address,
        apply_decay: F,
    ) -> (r: Option<SourceReputation>)
        requires
            env@.storage.reputations.contains_key(source) ==> forall|kept: SourceReputation|
                #![trigger kept@]
                kept@ == env@.storage.reputations[source] ==> call_requires(
                    apply_decay,
                    (env, kept),
                ),
        ensures
            match r {
                None => !env@.storage.reputations.contains_key(source),
                Some(now) => {
                    &&& env@.storage.reputations.contains_key(source)
                    &&& exists|kept: SourceReputation|
                        #![trigger kept@]
                        kept@ == env@.storage.reputations[source] && call_ensures(
                            apply_decay,
                            (env, kept),
                            now,
                        )
                },
            },
    {
        match env.storage.get_source_reputation(&source) {
            None => None,
            Some(kept) => {
                assert(kept@ == env@.storage.reputations[source]);
                Some(apply_decay(env, kept))
            },
        }
    }

    /// Forgets the reputation of `source`.
    pub fn reset_reputation(env: &mut OracleEnv, admin: Address, source: Address) -> (r: Result<
        (),
        OracleError,
    >)
        requires
            old(env)@.authorized.contains(admin),
        ensures
            old(env)@.steps_to(
                OracleCall::ResetReputation { admin, source },
                final(env)@,
            ),
            match old(env)@.storage.admin_refusal(admin) {
                Some(e) => r == Err::<(), OracleError>(e) && final(env)@ == old(env)@,
                None => {
                    &&& r is Ok
                    &&& final(env)@ == old(env)@.with_storage(
                        StorageView {
                            reputations: old(env)@.storage.reputations.remove(source),
                            ..old(env)@.storage
                        },
                    )
                },
            },
    {
        if let Err(e) = env.storage.verify_admin(&admin) {
            return Err(e);
        }
        env.storage.remove_source_reputation(&source);
        Ok(())
    }

    /// Sets who may decide on proposals, and how many of them it takes.
    pub fn init_multisig(
        env: &mut OracleEnv,
        admin: Address,
        signers: Vec<Address>,
        threshold: u32,
    ) -> (r: Result<(), OracleError>)
        requires
            old(env)@.authorized.contains(admin),
            signers@.len() <= u32::MAX,
        ensures
            old(env)@.steps_to(
                OracleCall::InitMultisig { admin, signers: signers@, threshold },
                final(env)@,
            ),
            match old(env)@.storage.multisig_refusal(admin, signers@, threshold) {
                Some(e) => r == Err::<(), OracleError>(e) && final(env)@ == old(env)@,
                None => {
                    &&& r is Ok
                    &&& final(env)@ == old(env)@.multisig_set(signers@, threshold)
                },
            },
    {
        if let Err(e) = env.storage.verify_admin(&admin) {
            return Err(e);
        }
        if threshold == 0 || threshold as usize > signers.len() {
            return Err(OracleError::InvalidThreshold);
        }
        let config = MultiSigConfig {
            signers: AddressList::from_addresses(&env.host, &signers),
            threshold,
        };
        env.storage.set_multisig_config(config);
        Ok(())
    }

    /// Puts `action` to the signers, and gives the identifier of the proposal. The
    /// proposer is a signer, and the first to approve.
    pub fn create_proposal(env: &mut OracleEnv, proposer: Address, action: ProposalAction) -> (r:
        Result<u32, OracleError>)
        requires
            old(env)@.authorized.contains(proposer),
            old(env)@.storage.signer_refusal(proposer) is None
                ==> old(env)@.storage.proposal_count < u32::MAX,
        ensures
            old(env)@.steps_to(
                OracleCall::CreateProposal { proposer, action: action@ },
                final(env)@,
            ),
            match old(env)@.storage.signer_refusal(proposer) {
                Some(e) => r == Err::<u32, OracleError>(e) && final(env)@ == old(env)@,
                None => {
                    &&& r == Ok::<u32, OracleError>(old(env)@.storage.proposal_count)
                    &&& final(env)@ == old(env)@.proposal_created(proposer, action@)
                },
            },
    {
        let config = match env.storage.get_multisig_config() {
            Some(config) => config,
            None => {
                return Err(OracleError::MultiSigNotInitialized);
            },
        };
        if !vec_contains_address(&config.signers, &proposer) {
            return Err(OracleError::NotASigner);
        }
        let id: u32 = env.storage.get_msig_proposal_count();
        let approvals = AddressList::new(&env.host).push_back(proposer);
        assert(approvals@ =~= seq![proposer]);
        let proposal = MultiSigProposal {
            id,
            action,
            approvals,
            executed: 0,
            created_at: env.timestamp,
            proposer,
        };
        env.storage.set_multisig_proposal(proposal);
        env.storage.set_proposal_count(id + 1);
        Ok(id)
    }

    /// Adds the approval of `signer` to a proposal.
    pub fn approve_proposal(env: &mut OracleEnv, signer: Address, proposal_id: u32) -> (r: Result<
        (),
        OracleError,
    >)
        requires
            old(env)@.authorized.contains(signer),
            old(env)@.storage.approval_refusal(signer, proposal_id) is None
                ==> old(env)@.storage.proposals[proposal_id].approvals.len() < u32::MAX,
        ensures
            old(env)@.steps_to(
                OracleCall::ApproveProposal { signer, proposal_id },
                final(env)@,
            ),
            match old(env)@.storage.approval_refusal(signer, proposal_id) {
                Some(e) => r == Err::<(), OracleError>(e) && final(env)@ == old(env)@,
                None => {
                    &&& r is Ok
                    &&& final(env)@ == old(env)@.proposal_approved(signer, proposal_id)
                },
            },
    {
        let config = match env.storage.get_multisig_config() {
            Some(config) => config,
            None => {
                return Err(OracleError::MultiSigNotInitialized);
            },
        };
        if !vec_contains_address(&config.signers, &signer) {
            return Err(OracleError::NotASigner);
        }
        let proposal = match env.storage.get_multisig_proposal(proposal_id) {
            Some(proposal) => proposal,
            None => {
                return Err(OracleError::ProposalNotFound);
            },
        };
        if proposal.executed == 1 {
            return Err(OracleError::ProposalAlreadyExecuted);
        }
        if vec_contains_address(&proposal.approvals, &signer) {
            return Err(OracleError::AlreadyApproved);
        }
        let approved = MultiSigProposal {
            approvals: proposal.approvals.push_back(signer),
            ..proposal
        };
        env.storage.set_multisig_proposal(approved);
        Ok(())
    }

    /// Carries out a proposal that has as many approvals as the threshold asks
    /// for.
    pub fn execute_proposal(env: &mut OracleEnv, signer: Address, proposal_id: u32) -> (r: Result<
        (),
        OracleError,
    >)
        requires
            old(env)@.authorized.contains(signer),
            old(env)@.storage.execution_refusal(signer, proposal_id) is None
                ==> old(env)@.storage.action_fits(old(env)@.storage.proposals[proposal_id].action),
        ensures
            old(env)@.steps_to(
                OracleCall::ExecuteProposal { signer, proposal_id },
                final(env)@,
            ),
            match old(env)@.storage.execution_refusal(signer, proposal_id) {
                Some(e) => r == Err::<(), OracleError>(e) && final(env)@ == old(env)@,
                None => {
                    &&& r is Ok
                    &&& final(env)@ == old(env)@.proposal_executed(signer, proposal_id)
                },
            },
    {
        let config = match env.storage.get_multisig_config() {
            Some(config) => config,
            None => {
                return Err(OracleError::MultiSigNotInitialized);
            },
        };
        if !vec_contains_address(&config.signers, &signer) {
            return Err(OracleError::NotASigner);
        }
        let proposal = match env.storage.get_multisig_proposal(proposal_id) {
            Some(proposal) => proposal,
            None => {
                return Err(OracleError::ProposalNotFound);
            },
        };
        if proposal.executed == 1 {
            return Err(OracleError::ProposalAlreadyExecuted);
        }
        if proposal.approvals.len() < config.threshold {
            return Err(OracleError::ThresholdNotMet);
        }
        if let Err(e) = apply_proposal_action(env, &proposal.action) {
            return Err(e);
        }
        let executed = MultiSigProposal { executed: 1, ..proposal };
        env.storage.set_multisig_proposal(executed);
        env.publish(Effect::GovernanceExecuted { signer, proposal_id });
        Ok(())
    }

    /// The proposal with the given identifier.
    pub fn get_proposal(env: &OracleEnv, proposal_id: u32) -> (proposal: Option<MultiSigProposal>)
        ensures
            match proposal {
                Some(p) => {
                    &&& env@.storage.proposals.contains_key(proposal_id)
                    &&& p@ == env@.storage.proposals[proposal_id]
                },
                None => !env@.storage.proposals.contains_key(proposal_id),
            },
    {
        env.storage.get_multisig_proposal(proposal_id)
    }

    /// The signers and their threshold.
    pub fn get_multisig_config(env: &OracleEnv) -> (config: Option<MultiSigConfig>)
        ensures
            config_view(config) == env@.storage.multisig,
    {
        env.storage.get_multisig_config()
    }

    /// Whether the emergency pause is on. Submissions are refused while it is;
    /// queries are answered as before.
    pub fn is_paused(env: &OracleEnv) -> (paused: bool)
        ensures
            paused == env@.storage.paused,
    {
        env.storage.is_paused()
    }

    /// The latest price of `asset`, with its dollar value where that can be told.
    pub fn get_price(env: &OracleEnv, asset: String) -> (r: Option<AssetPrice>)
        requires
            env@.storage.latest.contains_key(asset@) ==> env@.storage.usd_price_fits(
                asset@,
                env@.storage.latest[asset@].price,
                env@.storage.latest[asset@].decimals,
            ),
        ensures
            match env@.storage.asset_price(asset@) {
                Some(price) => r is Some && r->0@ == price,
                None => r is None,
            },
    {
        let point = match env.storage.get_latest_price(&asset) {
            Some(point) => point,
            None => {
                return None;
            },
        };
        let num_sources: u64 = env.storage.get_source_count();
        let is_trusted: bool = env.storage.is_trusted_asset(&asset);
        let price_usd = calculate_usd_price(&env.storage, &asset, point.price, point.decimals);
        Some(
            AssetPrice {
                asset,
                price: point.price,
                decimals: point.decimals,
                price_usd,
                timestamp: point.timestamp,
                source: point.source,
                num_sources,
                is_trusted,
            },
        )
    }

    /// The assets that have a price, in the order of their first ones.
    pub fn get_assets(env: &OracleEnv) -> (assets: Vec<String>)
        ensures
            names_view(assets@) == env@.storage.assets,
    {
        env.storage.get_all_assets()
    }

    /// The last `limit` recorded prices of `asset`, the oldest first.
    pub fn get_price_history(env: &OracleEnv, asset: String, limit: u32) -> (points: Vec<
        PriceDataPoint,
    >)
        ensures
            data_points_view(points@) == env@.storage.recent_prices(asset@, limit),
    {
        let all_history = env.storage.get_price_history(&env.host, &asset);
        let len: u32 = all_history.len();
        let start: u32 = if len > limit {
            len - limit
        } else {
            0
        };
        let ghost recent = env@.storage.recent_prices(asset@, limit);
        let mut points: Vec<PriceDataPoint> = Vec::new();
        let mut i: u32 = start;
        assert(recent.len() == len - start);
        assert(data_points_view(points@) =~= recent.take(0));
        while i < len
            invariant
                start <= i <= len == all_history@.len(),
                recent.len() == len - start,
                forall|j: int|
                    0 <= j < recent.len() ==> #[trigger] recent[j] == PriceDataPointView::of(
                        asset@,
                        all_history@[start + j],
                    ),
                data_points_view(points@) == recent.take(i - start),
            decreases len - i,
        {
            if let Some(point) = all_history.get(i) {
                let ghost before = points@;
                points.push(PriceDataPoint::of(&asset, point));
                assert(data_points_view(points@) =~= data_points_view(before).push(
                    recent[i - start],
                ));
            }
            i += 1;
            assert(recent.take(i - start) =~= recent.take(i - 1 - start).push(
                recent[i - 1 - start],
            ));
        }
        assert(recent.take(i - start) =~= recent);
        points
    }

    /// Pays the rent of the history of `asset`.
    pub fn extend_price_history_ttl(
        env: &mut OracleEnv,
        asset: String,
        threshold: u32,
        extend_to: u32,
    )
        ensures
            old(env)@.steps_to(
                OracleCall::ExtendPriceHistoryTtl {
                    asset: asset@,
                    window: TtlWindow { threshold, extend_to },
                },
                final(env)@,
            ),
            final(env)@ == old(env)@.with_effect(
                EffectView::ExtendHistoryTtl {
                    asset: asset@,
                    window: Some(TtlWindow { threshold, extend_to }),
                },
            ),
    {
        env.publish(
            Effect::ExtendHistoryTtl { asset, window: Some(TtlWindow { threshold, extend_to }) },
        );
    }

    /// Pays the rent of the instance storage.
    pub fn extend_instance_ttl(env: &mut OracleEnv, threshold: u32, extend_to: u32)
        ensures
            old(env)@.steps_to(
                OracleCall::ExtendInstanceTtl { window: TtlWindow { threshold, extend_to } },
                final(env)@,
            ),
            final(env)@ == old(env)@.with_effect(
                EffectView::ExtendInstanceTtl { window: Some(TtlWindow { threshold, extend_to }) },
            ),
    {
        env.publish(Effect::ExtendInstanceTtl { window: Some(TtlWindow { threshold, extend_to }) });
    }

    /// Registers `source` under `name`.
    pub fn add_oracle_source(env: &mut OracleEnv, admin: Address, source: Address, name: String)
        -> (r: Result<(), OracleError>)
        requires
            old(env)@.authorized.contains(admin),
        ensures
            old(env)@.steps_to(
                OracleCall::AddOracleSource { admin, source, name: name@ },
                final(env)@,
            ),
            match old(env)@.storage.admin_refusal(admin) {
                Some(e) => r == Err::<(), OracleError>(e) && final(env)@ == old(env)@,
                None => {
                    &&& r is Ok
                    &&& final(env)@ == old(env)@.with_storage(
                        StorageView {
                            sources: old(env)@.storage.sources.insert(source, name@),
                            ..old(env)@.storage
                        },
                    )
                },
            },
    {
        if let Err(e) = env.storage.verify_admin(&admin) {
            return Err(e);
        }
        env.storage.add_source(&source, &name);
        Ok(())
    }

    /// Strikes `source` off.
    pub fn remove_oracle_source(env: &mut OracleEnv, admin: Address, source: Address) -> (r: Result<
        (),
        OracleError,
    >)
        requires
            old(env)@.authorized.contains(admin),
        ensures
            old(env)@.steps_to(
                OracleCall::RemoveOracleSource { admin, source },
                final(env)@,
            ),
            match old(env)@.storage.admin_refusal(admin) {
                Some(e) => r == Err::<(), OracleError>(e) && final(env)@ == old(env)@,
                None => {
                    &&& r is Ok
                    &&& final(env)@ == old(env)@.with_storage(
                        StorageView {
                            sources: old(env)@.storage.sources.remove(source),
                            ..old(env)@.storage
                        },
                    )
                },
            },
    {
        if let Err(e) = env.storage.verify_admin(&admin) {
            return Err(e);
        }
        env.storage.remove_source(&source);
        Ok(())
    }

    /// Marks `asset` as trusted, or as not trusted.
    pub fn set_trusted_asset(env: &mut OracleEnv, admin: Address, asset: String, trusted: bool)
        -> (r: Result<(), OracleError>)
        requires
            old(env)@.authorized.contains(admin),
        ensures
            old(env)@.steps_to(
                OracleCall::SetTrustedAsset { admin, asset: asset@, trusted },
                final(env)@,
            ),
            match old(env)@.storage.admin_refusal(admin) {
                Some(e) => r == Err::<(), OracleError>(e) && final(env)@ == old(env)@,
                None => {
                    &&& r is Ok
                    &&& final(env)@ == old(env)@.with_storage(
                        StorageView {
                            trusted: old(env)@.storage.trusted.insert(asset@, trusted),
                            ..old(env)@.storage
                        },
                    )
                },
            },
    {
        if let Err(e) = env.storage.verify_admin(&admin) {
            return Err(e);
        }
        env.storage.set_trusted_asset(&asset, trusted);
        Ok(())
    }

    /// Sets the fee of a query.
    pub fn set_query_fee(env: &mut OracleEnv, fee: i128)
        requires
            old(env)@.admin_authorized(),
        ensures
            old(env)@.steps_to(
                OracleCall::SetQueryFee { fee },
                final(env)@,
            ),
            final(env)@ == old(env)@.with_storage(
                StorageView { query_fee: fee, ..old(env)@.storage },
            ),
    {
        env.storage.set_query_fee(fee);
    }

    /// The fee of a query.
    pub fn get_query_fee(env: &OracleEnv) -> (fee: i128)
        ensures
            fee == env@.storage.query_fee,
    {
        env.storage.get_query_fee()
    }

    /// Puts `addr` on the whitelist with `status`.
    pub fn set_whitelist(env: &mut OracleEnv, addr: Address, status: bool)
        requires
            old(env)@.admin_authorized(),
        ensures
            old(env)@.steps_to(
                OracleCall::SetWhitelist { addr, status },
                final(env)@,
            ),
            final(env)@ == old(env)@.with_storage(
                StorageView {
                    whitelist: old(env)@.storage.whitelist.insert(addr, status),
                    ..old(env)@.storage
                },
            ),
    {
        env.storage.set_whitelist(&addr, status);
    }

    /// Pays the collected fees out to `to`, in the token that `to` names.
    pub fn withdraw_fees(env: &mut OracleEnv, to: Address)
        requires
            old(env)@.admin_authorized(),
        ensures
            old(env)@.steps_to(
                OracleCall::WithdrawFees { to },
                final(env)@,
            ),
            final(env)@ == old(env)@.fees_withdrawn(to),
    {
        let balance: i128 = env.storage.get_fee_balance();
        if balance > 0 {
            env.storage.set_fee_balance(0);
            env.publish(Effect::Transfer { token: to, from: env.contract, to, amount: balance });
        }
    }

    /// Raises the stake of `source` by `amount` of `token`.
    pub fn stake(env: &mut OracleEnv, source: Address, amount: i128, token: Address)
        requires
            old(env)@.authorized.contains(source),
            i128::MIN <= old(env)@.storage.stake_of(source) + amount <= i128::MAX,
        ensures
            old(env)@.steps_to(
                OracleCall::Stake { source, amount, token },
                final(env)@,
            ),
            final(env)@ == old(env)@.staked(source, amount, token),
    {
        env.publish(Effect::Transfer { token, from: source, to: env.contract, amount });
        let current: i128 = env.storage.get_stake(&source);
        env.storage.set_stake(&source, current + amount);
        env.publish(Effect::SourceStaked { source, amount });
    }

    /// Takes `amount` off the stake of `source`, or the whole stake where it is
    /// less.
    pub fn slash(env: &mut OracleEnv, source: Address, amount: i128, reason: String)
        requires
            old(env)@.admin_authorized(),
            old(env)@.storage.stake_of(source) - amount <= i128::MAX,
            old(env)@.storage.slash_count_of(source) < u32::MAX,
        ensures
            old(env)@.steps_to(
                OracleCall::Slash { source, amount, reason: reason@ },
                final(env)@,
            ),
            final(env)@ == old(env)@.source_slashed(source, amount, reason@),
    {
        let current: i128 = env.storage.get_stake(&source);
        let slashed: i128 = if amount > current {
            current
        } else {
            amount
        };
        env.storage.set_stake(&source, current - slashed);
        let count: u32 = env.storage.get_slash_count(&source);
        env.storage.set_slash_count(&source, count + 1);
        env.publish(Effect::SourceSlashed { source, reason, slashed });
    }

    /// The stake of `source`.
    pub fn get_stake_balance(env: &OracleEnv, source: Address) -> (stake: i128)
        ensures
            stake == env@.storage.stake_of(source),
    {
        env.storage.get_stake(&source)
    }

    /// Pays the rent of the instance storage and of the history of every asset.
    pub fn extend_storage_ttl(env: &mut OracleEnv)
        ensures
            old(env)@.steps_to(
                OracleCall::ExtendStorageTtl,
                final(env)@,
            ),
            final(env)@ == old(env)@.storage_extended(),
    {
        let ghost start = env@.with_effect(EffectView::ExtendInstanceTtl { window: None });
        let ghost rent = env@.storage.assets.map_values(
            |asset: Seq<char>| EffectView::ExtendHistoryTtl { asset, window: None },
        );
        env.publish(Effect::ExtendInstanceTtl { window: None });
        let assets = env.storage.get_all_assets();
        let mut i: usize = 0;
        assert(start.effects + rent.take(0) =~= start.effects);
        while i < assets.len()
            invariant
                i <= assets@.len(),
                names_view(assets@) == start.storage.assets,
                rent == start.storage.assets.map_values(
                    |asset: Seq<char>| EffectView::ExtendHistoryTtl { asset, window: None },
                ),
                env@ == (OracleView { effects: start.effects + rent.take(i as int), ..start }),
            decreases assets@.len() - i,
        {
            assert(names_view(assets@)[i as int] == assets@[i as int]@);
            env.publish(Effect::ExtendHistoryTtl { asset: assets[i].clone(), window: None });
            assert(rent.take(i + 1) =~= rent.take(i as int).push(rent[i as int]));
            assert(start.effects + rent.take(i + 1) =~= (start.effects + rent.take(i as int)).push(
                rent[i as int],
            ));
            i += 1;
        }
        assert(rent.take(i as int) =~= rent);
    }
}

/// Carries out what the signers decided.
pub fn apply_proposal_action(env: &mut OracleEnv, action: &ProposalAction) -> (r: Result<
    (),
    OracleError,
>)
    requires
        old(env)@.storage.action_fits(action@),
    ensures
        r is Ok,
        final(env)@ == old(env)@.with_storage(old(env)@.storage.with_action(action@)),
{
    match action {
        ProposalAction::AddSource(source, name) => {
            env.storage.add_source(source, name);
        },
        ProposalAction::RemoveSource(source) => {
            env.storage.remove_source(source);
        },
        ProposalAction::SetTrustedAsset(asset, trusted) => {
            env.storage.set_trusted_asset(asset, *trusted);
        },
        ProposalAction::TransferAdmin(new_admin) => {
            env.storage.set_admin(new_admin);
        },
        ProposalAction::SetDeviationThreshold(threshold_bps) => {
            env.storage.set_deviation_threshold(*threshold_bps);
        },
        ProposalAction::ResetReputation(source) => {
            env.storage.remove_source_reputation(source);
        },
        ProposalAction::AddSigner(new_signer) => {
            if let Some(config) = env.storage.get_multisig_config() {
                if !vec_contains_address(&config.signers, new_signer) {
                    let signers = config.signers.push_back(*new_signer);
                    env.storage.set_multisig_config(
                        MultiSigConfig { signers, threshold: config.threshold },
                    );
                }
            }
        },
        ProposalAction::RemoveSigner(signer) => {
            if let Some(config) = env.storage.get_multisig_config() {
                let signers = config.signers.without(&env.host, signer);
                env.storage.set_multisig_config(
                    MultiSigConfig { signers, threshold: config.threshold },
                );
            }
        },
        ProposalAction::SetThreshold(new_threshold) => {
            if let Some(config) = env.storage.get_multisig_config() {
                env.storage.set_multisig_config(
                    MultiSigConfig { signers: config.signers, threshold: *new_threshold },
                );
            }
        },
        ProposalAction::Pause => {
            env.storage.set_paused(true);
        },
        ProposalAction::Unpause => {
            env.storage.set_paused(false);
        },
        ProposalAction::Other => {},
    }
    Ok(())
}

} // verus!
