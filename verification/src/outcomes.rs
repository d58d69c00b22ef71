//! What every call does and what every query gives, told by the arguments and by
//! the entries of the storage themselves.

use crate::address::Address;
use crate::calls::OracleCall;
use crate::contract::{data_points_view, entry_settled};
use crate::env::{effects_view, OracleEnv};
use crate::errors::OracleError;
use crate::model::{OracleView, StorageView};
use crate::storage::{config_view, names_view};
use crate::types::{
    AssetPrice, BatchPriceEntry, Effect, EffectView, MultiSigConfig, MultiSigConfigView,
    MultiSigProposal, MultiSigProposalView, PriceDataPoint, PriceDataPointView, PricePoint,
    ProposalAction, ProposalActionView, SourceReputation, TtlWindow,
};
use vstd::arithmetic::div_mod::lemma_fundamental_div_mod;
use vstd::arithmetic::power::{lemma_pow_positive, pow};
use vstd::prelude::*;

verus! {

// ---- Who may do what ------------------------------------------------------

/// Law: a price submission is refused while the pause is on, to whoever is not
/// registered, with a negative price, and where a threshold is set, the asset has
/// a price and the new one deviates. It is refused for the first of these causes
/// that holds, and for nothing else.
pub proof fn law_submission_is_refused_for_cause(
    storage: StorageView,
    source: Address,
    asset: Seq<char>,
    price: i128,
    deviates: bool,
)
    ensures
        ({
            let refusal = storage.submission_refusal(source, asset, price, deviates);
            let open = !storage.paused;
            let registered = storage.sources.contains_key(source);
            let compared = storage.deviation_threshold is Some && storage.latest.contains_key(
                asset,
            );
            &&& storage.deviation_applies(asset) <==> compared
            &&& refusal == Some(OracleError::ContractPaused) <==> !open
            &&& refusal == Some(OracleError::UnauthorizedSource) <==> open && !registered
            &&& refusal == Some(OracleError::InvalidPrice) <==> open && registered && price < 0
            &&& refusal == Some(OracleError::PriceDeviationTooLarge) <==> open && registered
                && price >= 0 && compared && deviates
            &&& refusal is None <==> open && registered && price >= 0 && !(compared && deviates)
        }),
{
}

/// Law: whenever a threshold is set and the asset has a price, a submission that
/// would be taken in but deviates is refused, whatever else is stored, and the
/// contract stays as it was.
pub proof fn law_deviating_price_is_refused(
    state: OracleView,
    asset: Seq<char>,
    point: PricePoint,
    reputation: Seq<u8>,
)
    requires
        state.storage.deviation_threshold is Some,
        state.storage.latest.contains_key(asset),
        state.storage.submission_refusal(point.source, asset, point.price, false) is None,
    ensures
        state.storage.submission_refusal(point.source, asset, point.price, true) == Some(
            OracleError::PriceDeviationTooLarge,
        ),
        state.after(OracleCall::SubmitPrice { asset, point, deviates: true, reputation }) == state,
{
}

/// Law: the commitment of a batch is refused while the pause is on, to whoever is
/// not registered, with a root that is not 32 bytes long, and under any nonce but
/// the next one. It is refused for the first of these causes that holds, and for
/// nothing else.
pub proof fn law_batch_is_refused_for_cause(
    storage: StorageView,
    source: Address,
    nonce: u64,
    root: Seq<u8>,
)
    ensures
        ({
            let refusal = storage.batch_refusal(source, nonce, root);
            let open = !storage.paused;
            let registered = storage.sources.contains_key(source);
            let sized = root.len() == 32;
            let next = nonce == storage.batch_nonce;
            &&& refusal == Some(OracleError::ContractPaused) <==> !open
            &&& refusal == Some(OracleError::UnauthorizedSource) <==> open && !registered
            &&& refusal == Some(OracleError::InvalidMerkleProof) <==> open && registered && !sized
            &&& refusal == Some(OracleError::BatchNonceMismatch) <==> open && registered && sized
                && !next
            &&& refusal is None <==> open && registered && sized && next
        }),
{
}

/// Law: a price of a batch is applied where the batch is committed, the price is
/// not negative, the inclusion proof holds and the leaf was not applied before. It
/// is refused for the first of these that fails, and for nothing else.
pub proof fn law_entry_is_refused_for_cause(
    storage: StorageView,
    batch_nonce: u64,
    price: i128,
    leaf_index: u32,
    holds: bool,
)
    ensures
        ({
            let refusal = storage.entry_refusal(batch_nonce, price, leaf_index, holds);
            let committed = storage.batch_roots.contains_key(batch_nonce);
            let applied = storage.applied.contains((batch_nonce, leaf_index));
            &&& refusal == Some(OracleError::BatchRootNotFound) <==> !committed
            &&& refusal == Some(OracleError::InvalidPrice) <==> committed && price < 0
            &&& refusal == Some(OracleError::InvalidMerkleProof) <==> committed && price >= 0
                && !holds
            &&& refusal == Some(OracleError::BatchEntryAlreadyApplied) <==> committed && price >= 0
                && holds && applied
            &&& refusal is None <==> committed && price >= 0 && holds && !applied
        }),
{
}

/// Law: a price whose inclusion proof does not hold is never applied, whatever was
/// applied of the batch before, and the contract stays as it was.
pub proof fn law_unproven_entry_is_never_applied(
    state: OracleView,
    batch_nonce: u64,
    leaf_index: u32,
    asset: Seq<char>,
    point: PricePoint,
)
    ensures
        state.storage.entry_refusal(batch_nonce, point.price, leaf_index, false) is Some,
        state.storage.batch_roots.contains_key(batch_nonce) && point.price >= 0
            ==> state.storage.entry_refusal(batch_nonce, point.price, leaf_index, false) == Some(
            OracleError::InvalidMerkleProof,
        ),
        state.after(
            OracleCall::ApplyBatchEntry { batch_nonce, leaf_index, asset, point, holds: false },
        ) == state,
{
}

/// Law: where a price of a batch is settled with success, the batch is committed,
/// the price is not negative, the proof holds, the leaf is new, and the result and
/// the latest price are the price of the entry. Where it is settled with an error,
/// nothing changes.
pub proof fn law_settled_entry_is_a_proven_one(
    before: OracleView,
    after: OracleView,
    batch_nonce: u64,
    entry: BatchPriceEntry,
    leaf_index: u32,
    holds: bool,
    r: Result<PriceDataPoint, OracleError>,
)
    requires
        entry_settled(before, after, batch_nonce, entry, leaf_index, holds, r),
    ensures
        r is Ok <==> {
            &&& before.storage.batch_roots.contains_key(batch_nonce)
            &&& entry.price >= 0
            &&& holds
            &&& !before.storage.applied.contains((batch_nonce, leaf_index))
        },
        r matches Ok(p) ==> {
            &&& p.asset@ == entry.asset@
            &&& p.price == entry.price
            &&& p.decimals == entry.decimals
            &&& p.timestamp == entry.timestamp
            &&& p.source == entry.source
            &&& after.storage.applied.contains((batch_nonce, leaf_index))
            &&& after.storage.latest.contains_key(entry.asset@)
            &&& after.storage.latest[entry.asset@] == (PricePoint {
                price: entry.price,
                decimals: entry.decimals,
                timestamp: entry.timestamp,
                source: entry.source,
            })
        },
        r matches Err(e) ==> {
            &&& after == before
            &&& before.storage.entry_refusal(batch_nonce, entry.price, leaf_index, holds) == Some(e)
        },
{
}

/// Law: a call that takes the administrator's address is accepted from the
/// administrator alone.
pub proof fn law_admin_is_the_stored_one(storage: StorageView, caller: Address)
    ensures
        storage.admin_refusal(caller) is None <==> storage.admin == Some(caller),
        storage.admin_refusal(caller) is Some ==> storage.admin_refusal(caller) == Some(
            OracleError::Unauthorized,
        ),
{
}

/// Law: signers are accepted from the administrator, with a threshold between one
/// and their number.
pub proof fn law_signers_are_refused_for_cause(
    storage: StorageView,
    caller: Address,
    signers: Seq<Address>,
    threshold: u32,
)
    ensures
        ({
            let refusal = storage.multisig_refusal(caller, signers, threshold);
            let is_admin = storage.admin == Some(caller);
            let reachable = 1 <= threshold <= signers.len();
            &&& refusal == Some(OracleError::Unauthorized) <==> !is_admin
            &&& refusal == Some(OracleError::InvalidThreshold) <==> is_admin && !reachable
            &&& refusal is None <==> is_admin && reachable
        }),
{
}

/// Law: a proposal is put up by a signer. It is approved by a signer who has not
/// approved it yet, and executed by a signer once it has as many approvals as the
/// threshold says, both only where it exists and is not executed. Each is refused
/// for the first of these that fails, and for nothing else.
pub proof fn law_decisions_are_refused_for_cause(storage: StorageView, signer: Address, id: u32)
    ensures
        ({
            let set = storage.multisig is Some;
            let listed = set && storage.multisig->0.signers.contains(signer);
            let known = listed && storage.proposals.contains_key(id);
            let open = known && storage.proposals[id].executed != 1;
            let fresh = open && !storage.proposals[id].approvals.contains(signer);
            let backed = open && storage.proposals[id].approvals.len()
                >= storage.multisig->0.threshold;
            let creation = storage.signer_refusal(signer);
            let approval = storage.approval_refusal(signer, id);
            let execution = storage.execution_refusal(signer, id);
            &&& creation is None <==> listed
            &&& creation == Some(OracleError::MultiSigNotInitialized) <==> !set
            &&& creation == Some(OracleError::NotASigner) <==> set && !listed
            &&& approval is None <==> fresh
            &&& approval == Some(OracleError::MultiSigNotInitialized) <==> !set
            &&& approval == Some(OracleError::NotASigner) <==> set && !listed
            &&& approval == Some(OracleError::ProposalNotFound) <==> listed && !known
            &&& approval == Some(OracleError::ProposalAlreadyExecuted) <==> known && !open
            &&& approval == Some(OracleError::AlreadyApproved) <==> open && !fresh
            &&& execution is None <==> backed
            &&& execution == Some(OracleError::MultiSigNotInitialized) <==> !set
            &&& execution == Some(OracleError::NotASigner) <==> set && !listed
            &&& execution == Some(OracleError::ProposalNotFound) <==> listed && !known
            &&& execution == Some(OracleError::ProposalAlreadyExecuted) <==> known && !open
            &&& execution == Some(OracleError::ThresholdNotMet) <==> open && !backed
        }),
{
}

/// Law: each call is refused by its own rule, calls that have none are never
/// refused, and a refused call changes nothing.
pub proof fn law_refused_call_changes_nothing(state: OracleView, call: OracleCall)
    ensures
        state.refusal(call) is Some ==> state.after(call) == state,
        ({
            let s = state.storage;
            let refusal = state.refusal(call);
            match call {
                OracleCall::Initialize { .. } => refusal == if s.admin is Some {
                    Some(OracleError::AlreadyInitialized)
                } else {
                    None
                },
                OracleCall::SubmitPrice { asset, point, deviates, .. } => refusal
                    == s.submission_refusal(point.source, asset, point.price, deviates),
                OracleCall::SubmitBatch { source, nonce, root } => refusal == s.batch_refusal(
                    source,
                    nonce,
                    root,
                ),
                OracleCall::ApplyBatchEntry { batch_nonce, leaf_index, point, holds, .. } => refusal
                    == s.entry_refusal(batch_nonce, point.price, leaf_index, holds),
                OracleCall::InitMultisig { admin, signers, threshold } => refusal
                    == s.multisig_refusal(admin, signers, threshold),
                OracleCall::CreateProposal { proposer, .. } => refusal == s.signer_refusal(
                    proposer,
                ),
                OracleCall::ApproveProposal { signer, proposal_id } => refusal
                    == s.approval_refusal(signer, proposal_id),
                OracleCall::ExecuteProposal { signer, proposal_id } => refusal
                    == s.execution_refusal(signer, proposal_id),
                OracleCall::SetDeviationThreshold { admin, .. }
                | OracleCall::ResetReputation { admin, .. }
                | OracleCall::AddOracleSource { admin, .. }
                | OracleCall::RemoveOracleSource { admin, .. }
                | OracleCall::SetTrustedAsset { admin, .. } => refusal is None <==> s.admin == Some(
                    admin,
                ),
                _ => refusal is None,
            }
        }),
{
}

/// Law: the administrator authorized an invocation where the stored administrator
/// is among those who did, and a decision has room unless it adds a signer to a
/// full list.
pub proof fn law_demands_on_callers(state: OracleView, action: ProposalActionView)
    ensures
        state.admin_authorized() <==> exists|admin: Address|
            state.storage.admin == Some(admin) && #[trigger] state.authorized.contains(admin),
        state.storage.action_fits(action) <==> !(action is AddSigner && state.storage.multisig
            is Some && state.storage.multisig->0.signers.len() >= u32::MAX),
{
    if state.admin_authorized() {
        assert(state.authorized.contains(state.storage.admin->0));
    }
}

// ---- What the signers decide ----------------------------------------------

/// Law: after the decision on the trust in an asset a query reports what was
/// decided. The mark of every other asset, and all else that is stored, stays.
pub proof fn law_decided_trust_is_reported(
    storage: StorageView,
    asset: Seq<char>,
    trusted: bool,
    other: Seq<char>,
)
    requires
        other != asset,
    ensures
        ({
            let after = storage.with_action(ProposalActionView::SetTrustedAsset(asset, trusted));
            &&& after.trusted.contains_key(asset) && after.trusted[asset] == trusted
            &&& after.is_trusted(asset) == trusted
            &&& after.asset_price(asset) matches Some(price) ==> price.is_trusted == trusted
            &&& after.asset_price(asset) is Some <==> storage.latest.contains_key(asset)
            &&& after.trusted.contains_key(other) == storage.trusted.contains_key(other)
            &&& storage.trusted.contains_key(other) ==> after.trusted[other]
                == storage.trusted[other]
            &&& after.asset_price(other) == storage.asset_price(other)
            &&& after == (StorageView { trusted: after.trusted, ..storage })
        }),
{
}

/// Law: a decision leaves what the administrator's call of the same meaning leaves.
pub proof fn law_decision_leaves_what_the_admin_call_leaves(
    state: OracleView,
    admin: Address,
    source: Address,
    name: Seq<char>,
    asset: Seq<char>,
    trusted: bool,
    threshold_bps: u32,
)
    requires
        state.storage.admin == Some(admin),
    ensures
        state.storage.with_action(ProposalActionView::AddSource(source, name)) == state.after(
            OracleCall::AddOracleSource { admin, source, name },
        ).storage,
        state.storage.with_action(ProposalActionView::RemoveSource(source)) == state.after(
            OracleCall::RemoveOracleSource { admin, source },
        ).storage,
        state.storage.with_action(ProposalActionView::SetTrustedAsset(asset, trusted))
            == state.after(OracleCall::SetTrustedAsset { admin, asset, trusted }).storage,
        state.storage.with_action(ProposalActionView::SetDeviationThreshold(threshold_bps))
            == state.after(OracleCall::SetDeviationThreshold { admin, threshold_bps }).storage,
        state.storage.with_action(ProposalActionView::ResetReputation(source)) == state.after(
            OracleCall::ResetReputation { admin, source },
        ).storage,
{
}

/// Law: a decision on a source registers it under the name given or strikes it
/// off. Other sources, and all else that is stored, stay.
pub proof fn law_decided_source_is_registered_or_struck_off(
    storage: StorageView,
    source: Address,
    name: Seq<char>,
    other: Address,
)
    requires
        other != source,
    ensures
        ({
            let added = storage.with_action(ProposalActionView::AddSource(source, name));
            let removed = storage.with_action(ProposalActionView::RemoveSource(source));
            &&& added.sources.contains_key(source) && added.sources[source] == name
            &&& !removed.sources.contains_key(source)
            &&& added.sources.contains_key(other) == storage.sources.contains_key(other)
            &&& removed.sources.contains_key(other) == storage.sources.contains_key(other)
            &&& storage.sources.contains_key(other) ==> added.sources[other]
                == storage.sources[other] && removed.sources[other] == storage.sources[other]
            &&& added == (StorageView { sources: added.sources, ..storage })
            &&& removed == (StorageView { sources: removed.sources, ..storage })
        }),
{
}

/// Law: a decision to hand the administration over makes the new administrator the
/// only one, and changes nothing else.
pub proof fn law_decided_admin_is_the_only_one(
    storage: StorageView,
    admin: Address,
    other: Address,
)
    requires
        other != admin,
    ensures
        ({
            let after = storage.with_action(ProposalActionView::TransferAdmin(admin));
            &&& after.admin == Some(admin)
            &&& after.admin_refusal(admin) is None
            &&& after.admin_refusal(other) == Some(OracleError::Unauthorized)
            &&& after == (StorageView { admin: after.admin, ..storage })
        }),
{
}

/// Law: a decision on the deviation threshold sets the one decided on, a decision
/// on a reputation leaves none for the source and all others as they are, a
/// decision on the pause turns it on or off, and none of them changes more. A
/// decision that is only put on record changes nothing.
pub proof fn law_other_decisions_change_what_they_name(
    storage: StorageView,
    threshold_bps: u32,
    source: Address,
    other: Address,
)
    requires
        other != source,
    ensures
        ({
            let bounded = storage.with_action(
                ProposalActionView::SetDeviationThreshold(threshold_bps),
            );
            let reset = storage.with_action(ProposalActionView::ResetReputation(source));
            let paused = storage.with_action(ProposalActionView::Pause);
            let open = storage.with_action(ProposalActionView::Unpause);
            &&& bounded == (StorageView { deviation_threshold: Some(threshold_bps), ..storage })
            &&& !reset.reputations.contains_key(source)
            &&& reset.reputations.contains_key(other) == storage.reputations.contains_key(other)
            &&& storage.reputations.contains_key(other) ==> reset.reputations[other]
                == storage.reputations[other]
            &&& reset == (StorageView { reputations: reset.reputations, ..storage })
            &&& paused == (StorageView { paused: true, ..storage })
            &&& open == (StorageView { paused: false, ..storage })
            &&& storage.with_action(ProposalActionView::Other) == storage
        }),
{
}

/// Law: decisions on signers work on the signers that are set, and do nothing where
/// none are. An added signer joins at the end unless listed already; a signer that
/// is taken off is gone, and the others keep their order; a threshold is set as
/// decided. None of them changes more.
pub proof fn law_decided_signers_are_listed(storage: StorageView, signer: Address, threshold: u32)
    ensures
        ({
            let added = storage.with_action(ProposalActionView::AddSigner(signer));
            let removed = storage.with_action(ProposalActionView::RemoveSigner(signer));
            let bounded = storage.with_action(ProposalActionView::SetThreshold(threshold));
            match storage.multisig {
                None => added == storage && removed == storage && bounded == storage,
                Some(config) => {
                    &&& config.signers.contains(signer) ==> added == storage
                    &&& !config.signers.contains(signer) ==> added.multisig == Some(
                        MultiSigConfigView {
                            signers: config.signers.push(signer),
                            threshold: config.threshold,
                        },
                    )
                    &&& removed.multisig == Some(
                        MultiSigConfigView {
                            signers: config.signers.filter(|a: Address| a != signer),
                            threshold: config.threshold,
                        },
                    )
                    &&& bounded.multisig == Some(
                        MultiSigConfigView { signers: config.signers, threshold },
                    )
                    &&& added == (StorageView { multisig: added.multisig, ..storage })
                    &&& removed == (StorageView { multisig: removed.multisig, ..storage })
                    &&& bounded == (StorageView { multisig: bounded.multisig, ..storage })
                },
            }
        }),
{
}

// ---- What accepted calls change -------------------------------------------

/// Law: a fresh contract stores nothing, and an invocation starts with its own
/// time and authorizations, nothing asked of the ledger, and the storage as it is.
pub proof fn law_contracts_and_invocations_start_clean(
    state: OracleView,
    contract: Address,
    timestamp: u64,
    authorized: Seq<Address>,
)
    ensures
        ({
            let fresh = OracleView::initial(contract);
            let s = fresh.storage;
            &&& fresh.contract == contract && fresh.timestamp == 0
            &&& fresh.authorized.len() == 0 && fresh.effects.len() == 0
            &&& s.admin is None && s.layout_version is None && !s.paused
            &&& s.deviation_threshold is None && s.multisig is None
            &&& s.sources.dom().is_empty() && s.trusted.dom().is_empty()
            &&& s.latest.dom().is_empty() && s.history.dom().is_empty() && s.assets.len() == 0
            &&& s.reputations.dom().is_empty() && s.whitelist.dom().is_empty()
            &&& s.batch_nonce == 0 && s.batch_roots.dom().is_empty() && s.applied.is_empty()
            &&& s.proposal_count == 0 && s.proposals.dom().is_empty()
            &&& s.query_fee == 0 && s.fee_balance == 0
            &&& s.stakes.dom().is_empty() && s.slash_counts.dom().is_empty()
        }),
        ({
            let begun = state.after(OracleCall::Begin { timestamp, authorized });
            &&& begun.timestamp == timestamp && begun.authorized == authorized
            &&& begun.effects.len() == 0
            &&& begun.storage == state.storage && begun.contract == state.contract
        }),
{
    assert(StorageView::initial().sources.dom() =~= Set::empty());
    assert(StorageView::initial().trusted.dom() =~= Set::empty());
    assert(StorageView::initial().latest.dom() =~= Set::empty());
    assert(StorageView::initial().history.dom() =~= Set::empty());
    assert(StorageView::initial().reputations.dom() =~= Set::empty());
    assert(StorageView::initial().whitelist.dom() =~= Set::empty());
    assert(StorageView::initial().batch_roots.dom() =~= Set::empty());
    assert(StorageView::initial().proposals.dom() =~= Set::empty());
    assert(StorageView::initial().stakes.dom() =~= Set::empty());
    assert(StorageView::initial().slash_counts.dom() =~= Set::empty());
}

/// Law: an accepted submission makes the price the latest one and the last of the
/// history, lists an asset that had none at the end, keeps the reputation of the
/// source, publishes the event, and changes nothing else.
pub proof fn law_submission_changes_what_it_names(
    state: OracleView,
    asset: Seq<char>,
    point: PricePoint,
    deviates: bool,
    reputation: Seq<u8>,
)
    requires
        state.refusal(OracleCall::SubmitPrice { asset, point, deviates, reputation }) is None,
    ensures
        ({
            let s = state.storage;
            let after = state.after(OracleCall::SubmitPrice { asset, point, deviates, reputation });
            let recorded = if s.history.contains_key(asset) {
                s.history[asset]
            } else {
                Seq::empty()
            };
            &&& after == state.price_submitted(asset, point, reputation)
            &&& after.storage == (StorageView {
                latest: s.latest.insert(asset, point),
                history: s.history.insert(asset, recorded.push(point)),
                assets: if s.latest.contains_key(asset) {
                    s.assets
                } else {
                    s.assets.push(asset)
                },
                reputations: s.reputations.insert(point.source, reputation),
                ..s
            })
            &&& after.effects == state.effects.push(
                EffectView::PriceSubmitted {
                    asset,
                    source: point.source,
                    price: point.price,
                    timestamp: point.timestamp,
                },
            )
            &&& after.contract == state.contract && after.timestamp == state.timestamp
            &&& after.authorized == state.authorized
        }),
{
}

/// Law: an applied price of a batch is recorded as a submitted one is, its leaf is
/// noted, the event is published, and nothing else changes: no reputation either.
pub proof fn law_applied_entry_changes_what_it_names(
    state: OracleView,
    batch_nonce: u64,
    leaf_index: u32,
    asset: Seq<char>,
    point: PricePoint,
    holds: bool,
)
    requires
        state.refusal(
            OracleCall::ApplyBatchEntry { batch_nonce, leaf_index, asset, point, holds },
        ) is None,
    ensures
        ({
            let s = state.storage;
            let after = state.after(
                OracleCall::ApplyBatchEntry { batch_nonce, leaf_index, asset, point, holds },
            );
            let recorded = if s.history.contains_key(asset) {
                s.history[asset]
            } else {
                Seq::empty()
            };
            &&& after == state.entry_applied(batch_nonce, leaf_index, asset, point)
            &&& after.storage == (StorageView {
                latest: s.latest.insert(asset, point),
                history: s.history.insert(asset, recorded.push(point)),
                assets: if s.latest.contains_key(asset) {
                    s.assets
                } else {
                    s.assets.push(asset)
                },
                applied: s.applied.insert((batch_nonce, leaf_index)),
                ..s
            })
            &&& after.effects == state.effects.push(
                EffectView::BatchEntryApplied { asset, batch_nonce, price: point.price },
            )
            &&& after.contract == state.contract && after.timestamp == state.timestamp
            &&& after.authorized == state.authorized
        }),
{
}

/// Law: an accepted batch is committed under its nonce, the next nonce is one more,
/// the event is published, and nothing else changes.
pub proof fn law_committed_batch_changes_what_it_names(
    state: OracleView,
    source: Address,
    nonce: u64,
    root: Seq<u8>,
)
    requires
        state.refusal(OracleCall::SubmitBatch { source, nonce, root }) is None,
        nonce < u64::MAX,
    ensures
        ({
            let s = state.storage;
            let after = state.after(OracleCall::SubmitBatch { source, nonce, root });
            &&& after.storage.batch_nonce == nonce + 1
            &&& after.storage == (StorageView {
                batch_nonce: after.storage.batch_nonce,
                batch_roots: s.batch_roots.insert(nonce, root),
                ..s
            })
            &&& after == (OracleView {
                storage: after.storage,
                effects: state.effects.push(EffectView::BatchSubmitted { source, nonce, root }),
                ..state
            })
        }),
{
}

/// Law: the first initialization sets the administrator and the layout version, and
/// each call that configures sets what it is given; nothing else changes and
/// nothing is asked of the ledger.
pub proof fn law_configuration_changes_what_it_names(
    state: OracleView,
    admin: Address,
    threshold_bps: u32,
    source: Address,
    name: Seq<char>,
    asset: Seq<char>,
    trusted: bool,
    signers: Seq<Address>,
    threshold: u32,
    fee: i128,
)
    ensures
        ({
            let s = state.storage;
            &&& s.admin is None ==> state.after(OracleCall::Initialize { admin }) == (OracleView {
                storage: StorageView { admin: Some(admin), layout_version: Some(1u32), ..s },
                ..state
            })
            &&& state.after(OracleCall::SetQueryFee { fee }) == (OracleView {
                storage: StorageView { query_fee: fee, ..s },
                ..state
            })
            &&& state.after(OracleCall::SetWhitelist { addr: source, status: trusted }) == (
            OracleView {
                storage: StorageView { whitelist: s.whitelist.insert(source, trusted), ..s },
                ..state
            })
        }),
        state.storage.admin == Some(admin) ==> {
            let s = state.storage;
            &&& state.after(OracleCall::SetDeviationThreshold { admin, threshold_bps }) == (
            OracleView {
                storage: StorageView { deviation_threshold: Some(threshold_bps), ..s },
                ..state
            })
            &&& state.after(OracleCall::ResetReputation { admin, source }) == (OracleView {
                storage: StorageView { reputations: s.reputations.remove(source), ..s },
                ..state
            })
            &&& state.after(OracleCall::AddOracleSource { admin, source, name }) == (OracleView {
                storage: StorageView { sources: s.sources.insert(source, name), ..s },
                ..state
            })
            &&& state.after(OracleCall::RemoveOracleSource { admin, source }) == (OracleView {
                storage: StorageView { sources: s.sources.remove(source), ..s },
                ..state
            })
            &&& state.after(OracleCall::SetTrustedAsset { admin, asset, trusted }) == (OracleView {
                storage: StorageView { trusted: s.trusted.insert(asset, trusted), ..s },
                ..state
            })
            &&& 1 <= threshold <= signers.len() ==> state.after(
                OracleCall::InitMultisig { admin, signers, threshold },
            ) == (OracleView {
                storage: StorageView {
                    multisig: Some(MultiSigConfigView { signers, threshold }),
                    ..s
                },
                ..state
            })
        },
{
}

/// Law: a new proposal is kept under the next identifier, as the proposer put it
/// up, open and with the proposer's approval alone. Nothing else changes, and
/// nothing is asked of the ledger.
pub proof fn law_proposal_is_kept_as_put_up(
    state: OracleView,
    proposer: Address,
    action: ProposalActionView,
)
    requires
        state.refusal(OracleCall::CreateProposal { proposer, action }) is None,
        state.storage.proposal_count < u32::MAX,
    ensures
        ({
            let s = state.storage;
            let after = state.after(OracleCall::CreateProposal { proposer, action });
            &&& after.storage.proposal_count == s.proposal_count + 1
            &&& after == (OracleView {
                storage: StorageView {
                    proposal_count: after.storage.proposal_count,
                    proposals: s.proposals.insert(
                        s.proposal_count,
                        MultiSigProposalView {
                            id: s.proposal_count,
                            action,
                            approvals: seq![proposer],
                            executed: 0,
                            created_at: state.timestamp,
                            proposer,
                        },
                    ),
                    ..s
                },
                ..state
            })
        }),
{
}

/// Law: an approval joins the others of its proposal at the end. Nothing else
/// changes, and nothing is asked of the ledger.
pub proof fn law_approval_joins_the_others(state: OracleView, signer: Address, proposal_id: u32)
    requires
        state.refusal(OracleCall::ApproveProposal { signer, proposal_id }) is None,
        state.storage.proposals[proposal_id].id == proposal_id,
    ensures
        ({
            let s = state.storage;
            let proposal = s.proposals[proposal_id];
            state.after(OracleCall::ApproveProposal { signer, proposal_id }) == (OracleView {
                storage: StorageView {
                    proposals: s.proposals.insert(
                        proposal_id,
                        MultiSigProposalView {
                            approvals: proposal.approvals.push(signer),
                            ..proposal
                        },
                    ),
                    ..s
                },
                ..state
            })
        }),
{
}

/// Law: executing a proposal carries its action out, marks it as executed with its
/// approvals as they are, publishes the event, and changes nothing else.
pub proof fn law_execution_carries_the_action_out(
    state: OracleView,
    signer: Address,
    proposal_id: u32,
)
    requires
        state.refusal(OracleCall::ExecuteProposal { signer, proposal_id }) is None,
        state.storage.proposals[proposal_id].id == proposal_id,
    ensures
        ({
            let proposal = state.storage.proposals[proposal_id];
            let decided = state.storage.with_action(proposal.action);
            let after = state.after(OracleCall::ExecuteProposal { signer, proposal_id });
            &&& decided.proposals == state.storage.proposals
            &&& after.storage == (StorageView {
                proposals: state.storage.proposals.insert(
                    proposal_id,
                    MultiSigProposalView { executed: 1, ..proposal },
                ),
                ..decided
            })
            &&& after == (OracleView {
                storage: after.storage,
                effects: state.effects.push(EffectView::GovernanceExecuted { signer, proposal_id }),
                ..state
            })
        }),
{
}

/// Law: a stake raises what the source has at stake by the amount, which moves in
/// the token from the source to the contract before the event is published.
pub proof fn law_stake_adds_what_it_moves(
    state: OracleView,
    source: Address,
    amount: i128,
    token: Address,
)
    requires
        i128::MIN <= (if state.storage.stakes.contains_key(source) {
            state.storage.stakes[source] as int
        } else {
            0
        }) + amount <= i128::MAX,
    ensures
        ({
            let s = state.storage;
            let after = state.after(OracleCall::Stake { source, amount, token });
            let stakes = after.storage.stakes;
            let before = if s.stakes.contains_key(source) {
                s.stakes[source] as int
            } else {
                0
            };
            &&& s.stake_of(source) == before
            &&& stakes == s.stakes.insert(source, stakes[source])
            &&& stakes[source] == before + amount
            &&& after == (OracleView {
                storage: StorageView { stakes, ..s },
                effects: state.effects.push(
                    EffectView::Transfer { token, from: source, to: state.contract, amount },
                ).push(EffectView::SourceStaked { source, amount }),
                ..state
            })
        }),
{
}

/// Law: a slash takes the amount, or the whole stake where that is less, counts one
/// slash more, publishes what it took, and changes nothing else.
pub proof fn law_slash_takes_what_it_publishes(
    state: OracleView,
    source: Address,
    amount: i128,
    reason: Seq<char>,
)
    requires
        (if state.storage.stakes.contains_key(source) {
            state.storage.stakes[source] as int
        } else {
            0
        }) - amount <= i128::MAX,
        state.storage.slash_counts.contains_key(source) ==> state.storage.slash_counts[source]
            < u32::MAX,
    ensures
        ({
            let s = state.storage;
            let after = state.after(OracleCall::Slash { source, amount, reason });
            let stakes = after.storage.stakes;
            let counts = after.storage.slash_counts;
            let before = if s.stakes.contains_key(source) {
                s.stakes[source] as int
            } else {
                0
            };
            let times = if s.slash_counts.contains_key(source) {
                s.slash_counts[source] as int
            } else {
                0
            };
            &&& stakes == s.stakes.insert(source, stakes[source])
            &&& amount <= before ==> stakes[source] == before - amount
            &&& amount > before ==> stakes[source] == 0
            &&& s.slash_count_of(source) == times
            &&& counts == s.slash_counts.insert(source, counts[source])
            &&& counts[source] == times + 1
            &&& after == (OracleView {
                storage: StorageView { stakes, slash_counts: counts, ..s },
                effects: state.effects.push(
                    EffectView::SourceSlashed {
                        source,
                        reason,
                        slashed: (before - stakes[source]) as i128,
                    },
                ),
                ..state
            })
        }),
{
}

/// Law: a withdrawal moves all collected fees from the contract to the receiver, in
/// the token that the receiver names, and leaves none. Without fees nothing
/// happens.
pub proof fn law_withdrawal_moves_all_fees(state: OracleView, to: Address)
    ensures
        ({
            let fees = state.storage.fee_balance;
            let after = state.after(OracleCall::WithdrawFees { to });
            &&& fees <= 0 ==> after == state
            &&& fees > 0 ==> after == (OracleView {
                storage: StorageView { fee_balance: 0, ..state.storage },
                effects: state.effects.push(
                    EffectView::Transfer { token: to, from: state.contract, to, amount: fees },
                ),
                ..state
            })
        }),
{
}

/// Law: a rent call pays for exactly what it names, in its window. The one for all
/// storage pays for the instance and then for the history of each listed asset, in
/// the order of the list, once each.
pub proof fn law_rent_is_paid_for_what_is_named(
    state: OracleView,
    asset: Seq<char>,
    window: TtlWindow,
)
    ensures
        state.after(OracleCall::ExtendInstanceTtl { window }) == (OracleView {
            effects: state.effects.push(EffectView::ExtendInstanceTtl { window: Some(window) }),
            ..state
        }),
        state.after(OracleCall::ExtendPriceHistoryTtl { asset, window }) == (OracleView {
            effects: state.effects.push(
                EffectView::ExtendHistoryTtl { asset, window: Some(window) },
            ),
            ..state
        }),
        ({
            let after = state.after(OracleCall::ExtendStorageTtl);
            let n = state.effects.len() as int;
            let assets = state.storage.assets;
            &&& after == (OracleView { effects: after.effects, ..state })
            &&& after.effects.len() == n + 1 + assets.len()
            &&& after.effects.take(n) == state.effects
            &&& after.effects[n] == EffectView::ExtendInstanceTtl { window: None }
            &&& forall|i: int|
                0 <= i < assets.len() ==> after.effects[n + 1 + i]
                    == (EffectView::ExtendHistoryTtl { asset: #[trigger] assets[i], window: None })
        }),
{
    assert(state.after(OracleCall::ExtendStorageTtl).effects.take(state.effects.len() as int)
        =~= state.effects);
}

// ---- What queries give ----------------------------------------------------

/// Law: an asset has a price where one was recorded, and a query gives that price
/// as it was recorded, the number of registered sources, and the mark of the asset.
pub proof fn law_price_query_gives_what_is_stored(storage: StorageView, asset: Seq<char>)
    ensures
        storage.asset_price(asset) is Some <==> storage.latest.contains_key(asset),
        storage.asset_price(asset) matches Some(price) ==> {
            let point = storage.latest[asset];
            &&& price.asset == asset
            &&& price.price == point.price
            &&& price.decimals == point.decimals
            &&& price.timestamp == point.timestamp
            &&& price.source == point.source
            &&& price.num_sources == storage.sources.dom().len()
            &&& price.is_trusted <==> storage.trusted.contains_key(asset) && storage.trusted[asset]
            &&& price.price_usd == storage.usd_price(asset, point.price, point.decimals)
        },
{
}

/// Law: the dollar value of a price of XLM is the price, and that of USDC, once it
/// has a price, is one dollar in the decimals given. Any other has one where XLM has
/// a price: the price times that of XLM, scaled down by the decimals of XLM alone
/// and cut off toward zero.
pub proof fn law_dollar_value_goes_through_xlm(
    storage: StorageView,
    asset: Seq<char>,
    price: i128,
    decimals: u32,
)
    ensures
        ({
            let value = storage.usd_price(asset, price, decimals);
            let anchored = asset == "USDC"@ && storage.latest.contains_key("USDC"@);
            let rate = storage.latest["XLM"@];
            let product = price * rate.price;
            let scale = pow(10, rate.decimals as nat);
            &&& asset == "XLM"@ ==> value == Some(price as int)
            &&& asset != "XLM"@ && anchored ==> value == Some(pow(10, decimals as nat))
            &&& asset != "XLM"@ && !anchored ==> {
                &&& value is Some <==> storage.latest.contains_key("XLM"@)
                &&& value matches Some(v) ==> {
                    &&& product >= 0 ==> v * scale <= product < (v + 1) * scale
                    &&& product < 0 ==> (v - 1) * scale < product <= v * scale
                }
            }
        }),
{
    let rate = storage.latest["XLM"@];
    let product = price * rate.price;
    let scale = pow(10, rate.decimals as nat);
    lemma_pow_positive(10, rate.decimals as nat);
    lemma_quotient_bounds(product, scale);
}

/// The quotient of two numbers is the largest whose multiple does not pass the
/// dividend, counted from zero.
proof fn lemma_quotient_bounds(x: int, d: int)
    requires
        d > 0,
    ensures
        x >= 0 ==> (x / d) * d <= x < (x / d + 1) * d,
        x < 0 ==> (-((-x) / d) - 1) * d < x <= -((-x) / d) * d,
{
    let a = if x >= 0 {
        x
    } else {
        -x
    };
    let q = a / d;
    lemma_fundamental_div_mod(a, d);
    assert(q * d == d * q) by (nonlinear_arith);
    assert((q + 1) * d == q * d + d) by (nonlinear_arith);
    assert((-q - 1) * d == -(q * d) - d) by (nonlinear_arith);
    assert((-q) * d == -(q * d)) by (nonlinear_arith);
}

/// Law: where an asset other than XLM and USDC and XLM itself have prices, the
/// answer to a query has the dollar value `v` for which `v` times ten to the
/// decimals of XLM is at most the product of the two prices, and `v + 1` times is
/// more, whatever the decimals of the asset and whether or not USDC has a price.
pub proof fn law_queried_dollar_value_is_the_scaled_product(
    storage: StorageView,
    asset: Seq<char>,
)
    requires
        asset != "XLM"@,
        asset != "USDC"@,
        storage.latest.contains_key(asset),
        storage.latest.contains_key("XLM"@),
        storage.latest[asset].price >= 0,
        storage.latest["XLM"@].price >= 0,
    ensures
        storage.asset_price(asset) is Some,
        storage.asset_price(asset)->0.price_usd is Some,
        ({
            let v = storage.asset_price(asset)->0.price_usd->0;
            let rate = storage.latest["XLM"@];
            let scale = pow(10, rate.decimals as nat);
            v * scale <= storage.latest[asset].price * rate.price < (v + 1) * scale
        }),
{
    let point = storage.latest[asset];
    let rate = storage.latest["XLM"@];
    law_dollar_value_goes_through_xlm(storage, asset, point.price, point.decimals);
    assert(point.price * rate.price >= 0) by (nonlinear_arith)
        requires
            point.price >= 0,
            rate.price >= 0,
    ;
}

/// Law: a dollar value can be computed in 128 bits where no number on the way is
/// larger; a price of XLM, and one without a price of XLM, always can.
pub proof fn law_dollar_value_fits(
    storage: StorageView,
    asset: Seq<char>,
    price: i128,
    decimals: u32,
)
    ensures
        ({
            let anchored = asset == "USDC"@ && storage.latest.contains_key("USDC"@);
            let rate = storage.latest["XLM"@];
            storage.usd_price_fits(asset, price, decimals) <==> {
                ||| asset == "XLM"@
                ||| anchored && pow(10, decimals as nat) <= i128::MAX
                ||| !anchored && !storage.latest.contains_key("XLM"@)
                ||| !anchored && i128::MIN <= price * rate.price <= i128::MAX && pow(
                    10,
                    rate.decimals as nat,
                ) <= i128::MAX
            }
        }),
{
}

/// Law: each point that a query for recent prices gives is the one recorded at its
/// place, counted from the end of the history, and there are as many as asked for
/// or as recorded.
pub proof fn law_recent_prices_are_as_recorded(storage: StorageView, asset: Seq<char>, limit: u32)
    ensures
        ({
            let recorded = if storage.history.contains_key(asset) {
                storage.history[asset]
            } else {
                Seq::empty()
            };
            let recent = storage.recent_prices(asset, limit);
            &&& storage.history_of(asset) == recorded
            &&& recent.len() <= limit && recent.len() <= recorded.len()
            &&& recent.len() == limit || recent.len() == recorded.len()
            &&& forall|i: int|
                0 <= i < recent.len() ==> {
                    let point = recorded[recorded.len() - recent.len() + i];
                    &&& (#[trigger] recent[i]).asset == asset
                    &&& recent[i].price == point.price
                    &&& recent[i].decimals == point.decimals
                    &&& recent[i].timestamp == point.timestamp
                    &&& recent[i].source == point.source
                }
        }),
{
}

/// Law: once another price of the asset is recorded, a query for one point more
/// gives the earlier answer, unchanged, followed by the new price.
pub proof fn law_recent_prices_grow_at_the_end(
    state: OracleView,
    asset: Seq<char>,
    point: PricePoint,
    deviates: bool,
    reputation: Seq<u8>,
    limit: u32,
)
    requires
        limit < u32::MAX,
        state.refusal(OracleCall::SubmitPrice { asset, point, deviates, reputation }) is None,
    ensures
        ({
            let before = state.storage.recent_prices(asset, limit);
            let after = state.after(
                OracleCall::SubmitPrice { asset, point, deviates, reputation },
            ).storage.recent_prices(asset, (limit + 1) as u32);
            after == before.push(
                PriceDataPointView {
                    asset,
                    price: point.price,
                    decimals: point.decimals,
                    timestamp: point.timestamp,
                    source: point.source,
                },
            )
        }),
{
    let before = state.storage.recent_prices(asset, limit);
    let later = state.after(OracleCall::SubmitPrice { asset, point, deviates, reputation }).storage;
    let after = later.recent_prices(asset, (limit + 1) as u32);
    assert(later.history_of(asset) == state.storage.history_of(asset).push(point));
    assert(after =~= before.push(PriceDataPointView::of(asset, point)));
}

/// Law: the stake and the slash count of a source are the stored ones, or zero, and
/// an asset is trusted where it is marked so.
pub proof fn law_entries_have_defaults(storage: StorageView, source: Address, asset: Seq<char>)
    ensures
        storage.stakes.contains_key(source) ==> storage.stake_of(source) == storage.stakes[source],
        !storage.stakes.contains_key(source) ==> storage.stake_of(source) == 0,
        storage.slash_counts.contains_key(source) ==> storage.slash_count_of(source)
            == storage.slash_counts[source],
        !storage.slash_counts.contains_key(source) ==> storage.slash_count_of(source) == 0,
        storage.is_trusted(asset) <==> storage.trusted.contains_key(asset)
            && storage.trusted[asset],
{
}

/// Law: setting the latest price of an asset lists it where it had none, adding to
/// a history adds at its end, a proposal is kept under its own identifier, and none
/// of them changes more.
pub proof fn law_entries_are_written_where_they_belong(
    storage: StorageView,
    asset: Seq<char>,
    point: PricePoint,
    proposal: MultiSigProposalView,
)
    ensures
        storage.with_latest(asset, point) == (StorageView {
            latest: storage.latest.insert(asset, point),
            assets: if storage.latest.contains_key(asset) {
                storage.assets
            } else {
                storage.assets.push(asset)
            },
            ..storage
        }),
        ({
            let after = storage.with_history(asset, point);
            &&& after.history == storage.history.insert(asset, after.history[asset])
            &&& after.history[asset].len() > 0 && after.history[asset].last() == point
            &&& storage.history.contains_key(asset) ==> after.history[asset].drop_last()
                == storage.history[asset]
            &&& !storage.history.contains_key(asset) ==> after.history[asset].len() == 1
            &&& after == (StorageView { history: after.history, ..storage })
        }),
        storage.with_proposal(proposal) == (StorageView {
            proposals: storage.proposals.insert(proposal.id, proposal),
            ..storage
        }),
{
}

// ---- What the models show -------------------------------------------------

/// Law: the model of a recorded price, of an answer and of an entry of a batch
/// shows each field as it is.
pub proof fn law_prices_are_shown_as_they_are(
    data_point: PriceDataPoint,
    price: AssetPrice,
    entry: BatchPriceEntry,
    asset: Seq<char>,
    point: PricePoint,
)
    ensures
        data_point@ == (PriceDataPointView {
            asset: data_point.asset@,
            price: data_point.price,
            decimals: data_point.decimals,
            timestamp: data_point.timestamp,
            source: data_point.source,
        }),
        PriceDataPointView::of(asset, point) == (PriceDataPointView {
            asset,
            price: point.price,
            decimals: point.decimals,
            timestamp: point.timestamp,
            source: point.source,
        }),
        entry.recorded() == (PricePoint {
            price: entry.price,
            decimals: entry.decimals,
            timestamp: entry.timestamp,
            source: entry.source,
        }),
        point@ == point,
        price@.asset == price.asset@,
        price@.price == price.price,
        price@.decimals == price.decimals,
        price@.price_usd is Some <==> price.price_usd is Some,
        price.price_usd is Some ==> price@.price_usd->0 == price.price_usd->0,
        price@.timestamp == price.timestamp,
        price@.source == price.source,
        price@.num_sources == price.num_sources,
        price@.is_trusted == price.is_trusted,
{
}

/// Law: the model of an action is the action, with names as sequences of
/// characters.
pub proof fn law_actions_are_shown_as_they_are(action: ProposalAction)
    ensures
        match action {
            ProposalAction::AddSource(source, name) => action@ == ProposalActionView::AddSource(
                source,
                name@,
            ),
            ProposalAction::RemoveSource(source) => action@ == ProposalActionView::RemoveSource(
                source,
            ),
            ProposalAction::SetTrustedAsset(asset, trusted) => action@
                == ProposalActionView::SetTrustedAsset(asset@, trusted),
            ProposalAction::TransferAdmin(admin) => action@ == ProposalActionView::TransferAdmin(
                admin,
            ),
            ProposalAction::SetDeviationThreshold(bps) => action@
                == ProposalActionView::SetDeviationThreshold(bps),
            ProposalAction::ResetReputation(source) => action@
                == ProposalActionView::ResetReputation(source),
            ProposalAction::AddSigner(signer) => action@ == ProposalActionView::AddSigner(signer),
            ProposalAction::RemoveSigner(signer) => action@ == ProposalActionView::RemoveSigner(
                signer,
            ),
            ProposalAction::SetThreshold(threshold) => action@ == ProposalActionView::SetThreshold(
                threshold,
            ),
            ProposalAction::Pause => action@ is Pause,
            ProposalAction::Unpause => action@ is Unpause,
            ProposalAction::Other => action@ is Other,
        },
{
}

/// Law: the models of signers, proposals and reputations show each field as it is.
pub proof fn law_decisions_are_shown_as_they_are(
    config: MultiSigConfig,
    proposal: MultiSigProposal,
    reputation: SourceReputation,
    address: Address,
)
    ensures
        config@ == (MultiSigConfigView { signers: config.signers@, threshold: config.threshold }),
        config_view(Some(config)) == Some(config@),
        config_view(None) is None,
        proposal@ == (MultiSigProposalView {
            id: proposal.id,
            action: proposal.action@,
            approvals: proposal.approvals@,
            executed: proposal.executed,
            created_at: proposal.created_at,
            proposer: proposal.proposer,
        }),
        reputation@ == reputation.record@,
        address@ == address,
{
}

/// Law: the model of an effect is the effect, with names and bytes as sequences.
pub proof fn law_effects_are_shown_as_they_are(effect: Effect)
    ensures
        match effect {
            Effect::PriceSubmitted { asset, source, price, timestamp } => effect@
                == (EffectView::PriceSubmitted { asset: asset@, source, price, timestamp }),
            Effect::BatchSubmitted { source, nonce, root } => effect@
                == (EffectView::BatchSubmitted { source, nonce, root: root@ }),
            Effect::BatchEntryApplied { asset, batch_nonce, price } => effect@
                == (EffectView::BatchEntryApplied { asset: asset@, batch_nonce, price }),
            Effect::GovernanceExecuted { signer, proposal_id } => effect@
                == (EffectView::GovernanceExecuted { signer, proposal_id }),
            Effect::SourceStaked { source, amount } => effect@ == (EffectView::SourceStaked {
                source,
                amount,
            }),
            Effect::SourceSlashed { source, reason, slashed } => effect@
                == (EffectView::SourceSlashed { source, reason: reason@, slashed }),
            Effect::Transfer { token, from, to, amount } => effect@ == (EffectView::Transfer {
                token,
                from,
                to,
                amount,
            }),
            Effect::ExtendInstanceTtl { window } => effect@ == (EffectView::ExtendInstanceTtl {
                window,
            }),
            Effect::ExtendHistoryTtl { asset, window } => effect@ == (
            EffectView::ExtendHistoryTtl { asset: asset@, window }),
        },
{
}

/// Law: the model of the environment shows its parts as they are, and the models of
/// lists show each item at its place.
pub proof fn law_lists_are_shown_in_order(
    env: OracleEnv,
    names: Seq<String>,
    points: Seq<PriceDataPoint>,
    effects: Seq<Effect>,
    i: int,
)
    ensures
        env@.storage == env.storage@,
        env@.contract == env.contract,
        env@.timestamp == env.timestamp,
        env@.authorized == env.authorized@,
        env@.effects == effects_view(env.effects@),
        names_view(names).len() == names.len(),
        data_points_view(points).len() == points.len(),
        effects_view(effects).len() == effects.len(),
        0 <= i < names.len() ==> names_view(names)[i] == names[i]@,
        0 <= i < points.len() ==> data_points_view(points)[i] == points[i]@,
        0 <= i < effects.len() ==> effects_view(effects)[i] == effects[i]@,
{
}

} // verus!
