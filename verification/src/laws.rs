//! What holds of the contract as a whole: of every state that calls can lead
//! to, and of one call after another.

use crate::address::Address;
use crate::calls::OracleCall;
use crate::errors::OracleError;
use crate::model::{usdc, xlm, OracleView, StorageView};
use crate::types::{
    EffectView, MultiSigConfigView, MultiSigProposalView, PriceDataPointView, PricePoint,
    ProposalActionView, TtlWindow,
};
use vstd::prelude::*;

verus! {

impl StorageView {
    /// Prices are never negative. The assets that have a latest price, that have a
    /// history and that are listed are the same, each is listed once, and the
    /// latest price is the last one of the history.
    pub open spec fn prices_consistent(self) -> bool {
        &&& self.assets.no_duplicates()
        &&& forall|asset: Seq<char>| #[trigger]
            self.assets.contains(asset) <==> self.latest.contains_key(asset)
        &&& forall|asset: Seq<char>| #[trigger]
            self.latest.contains_key(asset) <==> self.history.contains_key(asset)
        &&& forall|asset: Seq<char>| #[trigger]
            self.history.contains_key(asset) ==> {
                &&& self.history[asset].len() > 0
                &&& self.history[asset].last() == self.latest[asset]
                &&& forall|i: int|
                    0 <= i < self.history[asset].len() ==> (#[trigger] self.history[asset][i]).price
                        >= 0
            }
    }

    /// The nonces below the next one are those of the committed batches, roots are
    /// 32 bytes long, and only leaves of committed batches are applied.
    pub open spec fn batches_consistent(self) -> bool {
        &&& forall|nonce: u64| #[trigger]
            self.batch_roots.contains_key(nonce) <==> nonce < self.batch_nonce
        &&& forall|nonce: u64| #[trigger]
            self.batch_roots.contains_key(nonce) ==> self.batch_roots[nonce].len() == 32
        &&& forall|nonce: u64, leaf: u32| #[trigger]
            self.applied.contains((nonce, leaf)) ==> nonce < self.batch_nonce
    }

    /// A proposal is kept under its own identifier, below the next one. Nobody
    /// approves twice, the proposer is the first to approve, and a proposal is
    /// either executed or not.
    pub open spec fn proposals_consistent(self) -> bool {
        &&& forall|id: u32| #[trigger]
            self.proposals.contains_key(id) <==> id < self.proposal_count
        &&& forall|id: u32| #[trigger]
            self.proposals.contains_key(id) ==> {
                let proposal = self.proposals[id];
                &&& proposal.id == id
                &&& proposal.approvals.no_duplicates()
                &&& proposal.approvals.len() > 0
                &&& proposal.approvals[0] == proposal.proposer
                &&& (proposal.executed == 0 || proposal.executed == 1)
            }
    }

    /// The contract has an administrator from its initialization on, and signers
    /// only after that.
    pub open spec fn admin_consistent(self) -> bool {
        &&& self.admin is Some <==> self.layout_version == Some(1u32)
        &&& self.multisig is Some ==> self.admin is Some
    }

    /// What holds of the storage at all times.
    pub open spec fn consistent(self) -> bool {
        &&& self.prices_consistent()
        &&& self.batches_consistent()
        &&& self.proposals_consistent()
        &&& self.admin_consistent()
    }
}

/// Recording a price that is not negative keeps the prices consistent.
proof fn lemma_with_price_consistent(s: StorageView, asset: Seq<char>, point: PricePoint)
    requires
        s.prices_consistent(),
        point.price >= 0,
    ensures
        s.with_price(asset, point).prices_consistent(),
{
    let t = s.with_price(asset, point);
    if !s.latest.contains_key(asset) {
        assert(!s.assets.contains(asset));
        assert(t.assets.no_duplicates());
    }
    assert forall|a: Seq<char>| #[trigger] t.assets.contains(a) <==> t.latest.contains_key(a) by {
        assert(s.assets.contains(a) <==> s.latest.contains_key(a));
        if s.assets.contains(a) {
            let i = s.assets.index_of(a);
            assert(s.assets[i] == a);
            assert(t.assets[i] == a);
        }
        if a == asset && !s.latest.contains_key(asset) {
            assert(t.assets[s.assets.len() as int] == a);
        }
        if t.assets.contains(a) && !s.assets.contains(a) {
            let i = t.assets.index_of(a);
            assert(t.assets[i] == a);
        }
    }
    assert forall|a: Seq<char>| #[trigger] t.latest.contains_key(a) <==> t.history.contains_key(
        a,
    ) by {
        assert(s.latest.contains_key(a) <==> s.history.contains_key(a));
    }
    assert forall|a: Seq<char>| #[trigger] t.history.contains_key(a) implies {
        &&& t.history[a].len() > 0
        &&& t.history[a].last() == t.latest[a]
        &&& forall|i: int| 0 <= i < t.history[a].len() ==> (#[trigger] t.history[a][i]).price >= 0
    } by {
        if a == asset {
            let before = s.history_of(asset);
            assert(t.history[a] == before.push(point));
            assert forall|i: int| 0 <= i < t.history[a].len() implies (
            #[trigger] t.history[a][i]).price >= 0 by {
                if i < before.len() {
                    assert(s.history.contains_key(asset));
                    assert(t.history[a][i] == s.history[asset][i]);
                }
            }
        } else {
            assert(s.history.contains_key(a));
        }
    }
}

/// The storage of a fresh contract is consistent.
proof fn lemma_initial_consistent()
    ensures
        StorageView::initial().consistent(),
{
}

/// Law: whatever call is made, a consistent storage stays consistent.
pub proof fn law_calls_keep_consistency(state: OracleView, call: OracleCall)
    requires
        state.storage.consistent(),
        state.allows(call),
    ensures
        state.after(call).storage.consistent(),
{
    let s = state.storage;
    let t = state.after(call).storage;
    if state.refusal(call) is None {
        match call {
            OracleCall::SubmitPrice { asset, point, deviates, reputation } => {
                let u = StorageView {
                    reputations: s.reputations.insert(point.source, reputation),
                    ..s
                };
                lemma_with_price_consistent(u, asset, point);
            },
            OracleCall::ApplyBatchEntry { batch_nonce, leaf_index, asset, point, holds } => {
                let u = StorageView { applied: s.applied.insert((batch_nonce, leaf_index)), ..s };
                lemma_with_price_consistent(u, asset, point);
                assert(s.batch_roots.contains_key(batch_nonce));
            },
            OracleCall::ApproveProposal { signer, proposal_id } => {
                assert(s.proposals.contains_key(proposal_id));
                let approvals = s.proposals[proposal_id].approvals;
                assert(approvals.push(signer).no_duplicates());
                assert(approvals.push(signer)[0] == approvals[0]);
            },
            OracleCall::ExecuteProposal { signer, proposal_id } => {
                assert(s.proposals.contains_key(proposal_id));
            },
            OracleCall::CreateProposal { proposer, action } => {
                assert(!s.proposals.contains_key(s.proposal_count));
            },
            _ => {},
        }
    }
}

/// Law: every state that calls can lead to is consistent.
pub proof fn law_reachable_states_are_consistent(contract: Address, calls: Seq<OracleCall>)
    requires
        OracleView::initial(contract).allows_all(calls),
    ensures
        OracleView::initial(contract).run(calls).storage.consistent(),
    decreases calls.len(),
{
    if calls.len() == 0 {
        lemma_initial_consistent();
    } else {
        law_reachable_states_are_consistent(contract, calls.drop_last());
        law_calls_keep_consistency(
            OracleView::initial(contract).run(calls.drop_last()),
            calls.last(),
        );
    }
}

impl MultiSigProposalView {
    /// Whether a proposal can have become `later`: it asks for the same, no
    /// approval is lost, and it stays executed once it is.
    pub open spec fn grown_to(self, later: MultiSigProposalView) -> bool {
        &&& later.id == self.id
        &&& later.action == self.action
        &&& later.proposer == self.proposer
        &&& later.created_at == self.created_at
        &&& self.approvals.is_prefix_of(later.approvals)
        &&& self.executed == 1 ==> later.executed == 1
    }
}

impl StorageView {
    /// Whether the storage can have become `later` with nothing taken back that
    /// stands for good: the initialization, the committed batches, the applied
    /// leaves, the recorded prices, and what was decided on proposals.
    pub open spec fn kept_by(self, later: StorageView) -> bool {
        &&& self.admin is Some ==> later.admin is Some
        &&& self.batch_nonce <= later.batch_nonce
        &&& forall|nonce: u64| #[trigger]
            self.batch_roots.contains_key(nonce) ==> later.batch_roots.contains_key(nonce)
                && later.batch_roots[nonce] == self.batch_roots[nonce]
        &&& forall|leaf: (u64, u32)| #[trigger]
            self.applied.contains(leaf) ==> later.applied.contains(leaf)
        &&& forall|asset: Seq<char>| #[trigger]
            self.history_of(asset).is_prefix_of(later.history_of(asset))
        &&& self.proposal_count <= later.proposal_count
        &&& forall|id: u32| #[trigger]
            self.proposals.contains_key(id) ==> later.proposals.contains_key(id)
                && self.proposals[id].grown_to(later.proposals[id])
    }
}

/// Law: no call takes back what stands for good.
pub proof fn law_calls_take_nothing_back(state: OracleView, call: OracleCall)
    requires
        state.storage.consistent(),
        state.allows(call),
    ensures
        state.storage.kept_by(state.after(call).storage),
{
    let s = state.storage;
    let t = state.after(call).storage;
    assert forall|asset: Seq<char>| #[trigger]
        s.history_of(asset).is_prefix_of(t.history_of(asset)) by {
        let before = s.history_of(asset);
        let after = t.history_of(asset);
        assert(after == before || exists|p: PricePoint| after == before.push(p)) by {
            if state.refusal(call) is None {
                match call {
                    OracleCall::SubmitPrice { asset: a, point, deviates, reputation } => {
                        if a == asset {
                            assert(after == before.push(point));
                        }
                    },
                    OracleCall::ApplyBatchEntry {
                        batch_nonce,
                        leaf_index,
                        asset: a,
                        point,
                        holds,
                    } => {
                        if a == asset {
                            assert(after == before.push(point));
                        }
                    },
                    _ => {},
                }
            }
        }
        assert(before =~= after.subrange(0, before.len() as int));
    }
    assert forall|id: u32| #[trigger] s.proposals.contains_key(id) implies t.proposals.contains_key(
        id,
    ) && s.proposals[id].grown_to(t.proposals[id]) by {
        let before = s.proposals[id].approvals;
        assert(before =~= before.subrange(0, before.len() as int));
        if state.refusal(call) is None {
            match call {
                OracleCall::ApproveProposal { signer, proposal_id } => {
                    assert(s.proposals.contains_key(proposal_id));
                    assert(before =~= before.push(signer).subrange(0, before.len() as int));
                },
                OracleCall::ExecuteProposal { signer, proposal_id } => {
                    assert(s.proposals.contains_key(proposal_id));
                },
                _ => {},
            }
        }
    }
}

/// Law: no sequence of calls takes back what stands for good.
pub proof fn law_runs_take_nothing_back(state: OracleView, calls: Seq<OracleCall>)
    requires
        state.storage.consistent(),
        state.allows_all(calls),
    ensures
        state.run(calls).storage.consistent(),
        state.storage.kept_by(state.run(calls).storage),
    decreases calls.len(),
{
    let s = state.storage;
    if calls.len() == 0 {
        assert forall|asset: Seq<char>| #[trigger]
            s.history_of(asset).is_prefix_of(s.history_of(asset)) by {
            assert(s.history_of(asset) =~= s.history_of(asset).subrange(
                0,
                s.history_of(asset).len() as int,
            ));
        }
        assert forall|id: u32| #[trigger] s.proposals.contains_key(id) implies s.proposals[id].grown_to(
            s.proposals[id],
        ) by {
            let approvals = s.proposals[id].approvals;
            assert(approvals =~= approvals.subrange(0, approvals.len() as int));
        }
    } else {
        let mid = state.run(calls.drop_last());
        law_runs_take_nothing_back(state, calls.drop_last());
        law_calls_keep_consistency(mid, calls.last());
        law_calls_take_nothing_back(mid, calls.last());
        let m = mid.storage;
        let t = state.run(calls).storage;
        assert forall|asset: Seq<char>| #[trigger]
            s.history_of(asset).is_prefix_of(t.history_of(asset)) by {
            assert(s.history_of(asset).is_prefix_of(m.history_of(asset)));
            assert(m.history_of(asset).is_prefix_of(t.history_of(asset)));
            assert(s.history_of(asset) =~= t.history_of(asset).subrange(
                0,
                s.history_of(asset).len() as int,
            ));
        }
        assert forall|id: u32| #[trigger] s.proposals.contains_key(
            id,
        ) implies t.proposals.contains_key(id) && s.proposals[id].grown_to(t.proposals[id]) by {
            assert(m.proposals.contains_key(id));
            assert(s.proposals[id].grown_to(m.proposals[id]));
            assert(m.proposals[id].grown_to(t.proposals[id]));
            assert(s.proposals[id].approvals =~= t.proposals[id].approvals.subrange(
                0,
                s.proposals[id].approvals.len() as int,
            ));
        }
    }
}

/// Law: the contract is initialized once; whatever happens after that, a second
/// attempt is refused.
pub proof fn law_initialized_once(
    state: OracleView,
    admin: Address,
    calls: Seq<OracleCall>,
    other: Address,
)
    requires
        state.storage.consistent(),
        state.after(OracleCall::Initialize { admin }).allows_all(calls),
    ensures
        state.after(OracleCall::Initialize { admin }).run(calls).refusal(
            OracleCall::Initialize { admin: other },
        ) == Some(OracleError::AlreadyInitialized),
{
    law_calls_keep_consistency(state, OracleCall::Initialize { admin });
    law_runs_take_nothing_back(state.after(OracleCall::Initialize { admin }), calls);
}

/// Law: the nonce of a committed batch is used up. Whatever happens after the
/// commitment, nobody can commit another batch under it, and the root that was
/// committed is the one that stands.
pub proof fn law_batch_nonce_is_used_once(
    state: OracleView,
    source: Address,
    nonce: u64,
    root: Seq<u8>,
    calls: Seq<OracleCall>,
    other_source: Address,
    other_root: Seq<u8>,
)
    requires
        state.storage.consistent(),
        state.allows(OracleCall::SubmitBatch { source, nonce, root }),
        state.refusal(OracleCall::SubmitBatch { source, nonce, root }) is None,
        state.after(OracleCall::SubmitBatch { source, nonce, root }).allows_all(calls),
    ensures
        ({
            let later = state.after(OracleCall::SubmitBatch { source, nonce, root }).run(
                calls,
            ).storage;
            &&& later.batch_refusal(other_source, nonce, other_root) is Some
            &&& later.batch_roots.contains_key(nonce)
            &&& later.batch_roots[nonce] == root
        }),
{
    let call = OracleCall::SubmitBatch { source, nonce, root };
    law_calls_keep_consistency(state, call);
    law_runs_take_nothing_back(state.after(call), calls);
    assert(state.after(call).storage.batch_roots.contains_key(nonce));
}

/// Law: each leaf of a batch is applied once. Whatever happens after that, an
/// attempt to apply it again is refused, also with a proof that holds.
pub proof fn law_leaf_is_applied_once(
    state: OracleView,
    batch_nonce: u64,
    leaf_index: u32,
    asset: Seq<char>,
    point: PricePoint,
    calls: Seq<OracleCall>,
    other_price: i128,
    holds: bool,
)
    requires
        state.storage.consistent(),
        state.allows(
            OracleCall::ApplyBatchEntry { batch_nonce, leaf_index, asset, point, holds: true },
        ),
        state.refusal(
            OracleCall::ApplyBatchEntry { batch_nonce, leaf_index, asset, point, holds: true },
        ) is None,
        state.after(
            OracleCall::ApplyBatchEntry { batch_nonce, leaf_index, asset, point, holds: true },
        ).allows_all(calls),
    ensures
        ({
            let later = state.after(
                OracleCall::ApplyBatchEntry { batch_nonce, leaf_index, asset, point, holds: true },
            ).run(calls).storage;
            let refusal = later.entry_refusal(batch_nonce, other_price, leaf_index, holds);
            &&& refusal is Some
            &&& other_price >= 0 && holds ==> refusal == Some(
                OracleError::BatchEntryAlreadyApplied,
            )
        }),
{
    let call = OracleCall::ApplyBatchEntry { batch_nonce, leaf_index, asset, point, holds: true };
    law_calls_keep_consistency(state, call);
    law_runs_take_nothing_back(state.after(call), calls);
    assert(state.after(call).storage.applied.contains((batch_nonce, leaf_index)));
    assert(state.after(call).storage.batch_roots.contains_key(batch_nonce));
}

/// Law: a proposal is executed once. Whatever happens after that, it is neither
/// executed nor approved again.
pub proof fn law_proposal_is_executed_once(
    state: OracleView,
    signer: Address,
    proposal_id: u32,
    calls: Seq<OracleCall>,
    other: Address,
)
    requires
        state.storage.consistent(),
        state.allows(OracleCall::ExecuteProposal { signer, proposal_id }),
        state.refusal(OracleCall::ExecuteProposal { signer, proposal_id }) is None,
        state.after(OracleCall::ExecuteProposal { signer, proposal_id }).allows_all(calls),
    ensures
        ({
            let later = state.after(OracleCall::ExecuteProposal { signer, proposal_id }).run(
                calls,
            ).storage;
            &&& later.execution_refusal(other, proposal_id) is Some
            &&& later.approval_refusal(other, proposal_id) is Some
            &&& later.signer_refusal(other) is None ==> later.execution_refusal(other, proposal_id)
                == Some(OracleError::ProposalAlreadyExecuted)
        }),
{
    let call = OracleCall::ExecuteProposal { signer, proposal_id };
    law_calls_keep_consistency(state, call);
    law_runs_take_nothing_back(state.after(call), calls);
    assert(state.storage.proposals.contains_key(proposal_id));
    assert(state.after(call).storage.proposals.contains_key(proposal_id));
}

/// Law: what is executed has the approval of at least as many different addresses
/// as the threshold asks for, and it is a signer who executes it.
pub proof fn law_execution_has_distinct_approvals(
    storage: StorageView,
    signer: Address,
    proposal_id: u32,
)
    requires
        storage.consistent(),
        storage.execution_refusal(signer, proposal_id) is None,
    ensures
        storage.multisig is Some,
        storage.multisig->0.signers.contains(signer),
        storage.proposals[proposal_id].executed == 0,
        storage.proposals[proposal_id].approvals.to_set().len() >= storage.multisig->0.threshold,
{
    assert(storage.proposals.contains_key(proposal_id));
    storage.proposals[proposal_id].approvals.unique_seq_to_set();
}

/// Law: nobody approves a proposal twice; once an approval is in, another by the
/// same signer is refused.
pub proof fn law_signer_approves_once(state: OracleView, signer: Address, proposal_id: u32)
    requires
        state.storage.consistent(),
        state.storage.approval_refusal(signer, proposal_id) is None,
    ensures
        state.proposal_approved(signer, proposal_id).storage.approval_refusal(signer, proposal_id)
            == Some(OracleError::AlreadyApproved),
        forall|other: Address|
            other != signer ==> state.proposal_approved(
                signer,
                proposal_id,
            ).storage.approval_refusal(other, proposal_id) == #[trigger] state.storage.approval_refusal(
                other,
                proposal_id,
            ),
{
    let s = state.storage;
    let t = state.proposal_approved(signer, proposal_id).storage;
    assert(s.proposals.contains_key(proposal_id));
    let before = s.proposals[proposal_id].approvals;
    let after = t.proposals[proposal_id].approvals;
    assert(after[before.len() as int] == signer);
    assert forall|other: Address| other != signer implies t.approval_refusal(other, proposal_id)
        == #[trigger] s.approval_refusal(other, proposal_id) by {
        if before.contains(other) {
            let i = before.index_of(other);
            assert(before[i] == other);
            assert(after[i] == other);
        }
        if after.contains(other) {
            let i = after.index_of(other);
            assert(after[i] == other);
            assert(before[i] == other);
        }
    }
}

/// Law: an accepted price submission is what queries give from then on. The
/// latest price and the end of the history are the submitted one, and other
/// assets keep theirs.
pub proof fn law_submitted_price_is_read_back(
    state: OracleView,
    asset: Seq<char>,
    point: PricePoint,
    reputation: Seq<u8>,
    limit: u32,
)
    requires
        limit > 0,
    ensures
        price_is_read_back(
            state.storage,
            state.price_submitted(asset, point, reputation).storage,
            asset,
            point,
            limit,
        ),
{
    let u = StorageView {
        reputations: state.storage.reputations.insert(point.source, reputation),
        ..state.storage
    };
    lemma_price_is_read_back(u, asset, point, limit);
}

/// Law: an applied price of a batch is what queries give from then on, as a
/// submitted one is.
pub proof fn law_applied_price_is_read_back(
    state: OracleView,
    batch_nonce: u64,
    leaf_index: u32,
    asset: Seq<char>,
    point: PricePoint,
    limit: u32,
)
    requires
        limit > 0,
    ensures
        price_is_read_back(
            state.storage,
            state.entry_applied(batch_nonce, leaf_index, asset, point).storage,
            asset,
            point,
            limit,
        ),
{
    let u = StorageView {
        applied: state.storage.applied.insert((batch_nonce, leaf_index)),
        ..state.storage
    };
    lemma_price_is_read_back(u, asset, point, limit);
}

/// What queries on `after` give, where `point` was recorded for `asset` in
/// `before`.
pub open spec fn price_is_read_back(
    before: StorageView,
    after: StorageView,
    asset: Seq<char>,
    point: PricePoint,
    limit: u32,
) -> bool {
    &&& after.asset_price(asset) matches Some(price) && {
        &&& price.asset == asset
        &&& price.price == point.price
        &&& price.decimals == point.decimals
        &&& price.timestamp == point.timestamp
        &&& price.source == point.source
    }
    &&& after.recent_prices(asset, limit).len() > 0
    &&& after.recent_prices(asset, limit).last() == PriceDataPointView::of(asset, point)
    &&& after.history_of(asset) == before.history_of(asset).push(point)
    &&& forall|other: Seq<char>|
        other != asset ==> {
            &&& #[trigger] after.history_of(other) == before.history_of(other)
            &&& after.latest.contains_key(other) == before.latest.contains_key(other)
            &&& after.latest.contains_key(other) ==> after.latest[other] == before.latest[other]
        }
}

proof fn lemma_price_is_read_back(
    s: StorageView,
    asset: Seq<char>,
    point: PricePoint,
    limit: u32,
)
    requires
        limit > 0,
    ensures
        price_is_read_back(s, s.with_price(asset, point), asset, point, limit),
{
    let t = s.with_price(asset, point);
    let all = t.history_of(asset);
    assert(all == s.history_of(asset).push(point));
    let recent = t.recent_prices(asset, limit);
    assert(recent.last() == PriceDataPointView::of(asset, all.last()));
}

/// Law: a query for recent prices gives as many as asked for, or all there are,
/// and a shorter query gives the end of what a longer one gives.
pub proof fn law_recent_prices_are_the_last(
    storage: StorageView,
    asset: Seq<char>,
    fewer: u32,
    more: u32,
)
    requires
        fewer <= more,
    ensures
        ({
            let all = storage.history_of(asset).len();
            let short = storage.recent_prices(asset, fewer);
            let long = storage.recent_prices(asset, more);
            &&& short.len() == if all < fewer {
                all
            } else {
                fewer as nat
            }
            &&& short.is_suffix_of(long)
        }),
{
    let short = storage.recent_prices(asset, fewer);
    let long = storage.recent_prices(asset, more);
    assert(short =~= long.subrange(long.len() - short.len(), long.len() as int));
}

/// Law: while the emergency pause is on, no price and no batch is taken in,
/// whoever sends it.
pub proof fn law_pause_stops_submissions(
    storage: StorageView,
    source: Address,
    asset: Seq<char>,
    price: i128,
    deviates: bool,
    nonce: u64,
    root: Seq<u8>,
)
    requires
        storage.paused,
    ensures
        storage.submission_refusal(source, asset, price, deviates) == Some(
            OracleError::ContractPaused,
        ),
        storage.batch_refusal(source, nonce, root) == Some(OracleError::ContractPaused),
{
}

/// Law: turning the emergency pause on or off changes no answer to a query, nor
/// what is decided on prices of batches that are committed already.
pub proof fn law_pause_leaves_queries_alone(
    storage: StorageView,
    paused: bool,
    asset: Seq<char>,
    limit: u32,
    batch_nonce: u64,
    price: i128,
    leaf_index: u32,
    holds: bool,
)
    ensures
        ({
            let other = StorageView { paused, ..storage };
            &&& other.asset_price(asset) == storage.asset_price(asset)
            &&& other.recent_prices(asset, limit) == storage.recent_prices(asset, limit)
            &&& other.entry_refusal(batch_nonce, price, leaf_index, holds) == storage.entry_refusal(
                batch_nonce,
                price,
                leaf_index,
                holds,
            )
        }),
{
}

/// Law: a decision to lift the pause undoes a decision to pause, and nothing
/// else.
pub proof fn law_unpause_undoes_pause(storage: StorageView)
    ensures
        storage.with_action(ProposalActionView::Pause).paused,
        storage.with_action(ProposalActionView::Pause).with_action(ProposalActionView::Unpause) == (
        StorageView { paused: false, ..storage }),
{
}

/// Law: the first price of an asset, and any price while no threshold is set, is
/// taken in whatever the deviation.
pub proof fn law_first_price_is_not_compared(
    storage: StorageView,
    source: Address,
    asset: Seq<char>,
    price: i128,
)
    requires
        storage.deviation_threshold is None || !storage.latest.contains_key(asset),
    ensures
        storage.submission_refusal(source, asset, price, true) == storage.submission_refusal(
            source,
            asset,
            price,
            false,
        ),
{
}

/// Law: a source can submit once it is registered, and not once it is struck
/// off.
pub proof fn law_sources_are_admitted_and_struck_off(
    storage: StorageView,
    source: Address,
    name: Seq<char>,
    asset: Seq<char>,
    price: i128,
    nonce: u64,
    root: Seq<u8>,
)
    requires
        !storage.paused,
    ensures
        ({
            let registered = StorageView { sources: storage.sources.insert(source, name), ..storage };
            let struck_off = StorageView { sources: registered.sources.remove(source), ..registered };
            &&& price >= 0 ==> registered.submission_refusal(source, asset, price, false) is None
            &&& root.len() == 32 ==> registered.batch_refusal(source, storage.batch_nonce, root)
                is None
            &&& struck_off.submission_refusal(source, asset, price, false) == Some(
                OracleError::UnauthorizedSource,
            )
            &&& struck_off.batch_refusal(source, nonce, root) == Some(
                OracleError::UnauthorizedSource,
            )
        }),
{
}

/// Law: a decision to add a signer makes the address a signer, and once it is one
/// the decision changes nothing.
pub proof fn law_added_signer_is_a_signer(storage: StorageView, signer: Address)
    requires
        storage.multisig is Some,
    ensures
        ({
            let once = storage.with_action(ProposalActionView::AddSigner(signer));
            &&& once.signer_refusal(signer) is None
            &&& once.with_action(ProposalActionView::AddSigner(signer)) == once
        }),
{
    let config = storage.multisig->0;
    assert(config.signers.push(signer)[config.signers.len() as int] == signer);
}

/// Law: a decision to take a signer off leaves every other signer one, and the
/// address is none.
pub proof fn law_removed_signer_is_no_signer(storage: StorageView, signer: Address, other: Address)
    requires
        storage.multisig is Some,
        other != signer,
    ensures
        ({
            let after = storage.with_action(ProposalActionView::RemoveSigner(signer));
            &&& after.signer_refusal(signer) == Some(OracleError::NotASigner)
            &&& after.signer_refusal(other) == storage.signer_refusal(other)
        }),
{
    let signers = storage.multisig->0.signers;
    let keep = |a: Address| a != signer;
    let kept = signers.filter(keep);
    if kept.contains(signer) {
        let i = kept.index_of(signer);
        assert(kept[i] == signer);
        signers.lemma_filter_pred(keep, i);
    }
    if signers.contains(other) {
        let i = signers.index_of(other);
        assert(signers[i] == other);
        signers.lemma_filter_contains(keep, i);
    }
    if kept.contains(other) {
        signers.lemma_filter_contains_rev(keep, other);
    }
}

/// Law: taking off a signer that was just added gives the signers that were
/// there.
pub proof fn law_removal_undoes_addition(storage: StorageView, signer: Address)
    requires
        storage.multisig is Some,
        !storage.multisig->0.signers.contains(signer),
    ensures
        storage.with_action(ProposalActionView::AddSigner(signer)).with_action(
            ProposalActionView::RemoveSigner(signer),
        ) == storage,
{
    let signers = storage.multisig->0.signers;
    let keep = |a: Address| a != signer;
    reveal(Seq::filter);
    assert(signers.push(signer).drop_last() =~= signers);
    lemma_filter_keeps_all(signers, keep);
}

proof fn lemma_filter_keeps_all(s: Seq<Address>, keep: spec_fn(Address) -> bool)
    requires
        forall|i: int| 0 <= i < s.len() ==> keep(#[trigger] s[i]),
    ensures
        s.filter(keep) == s,
    decreases s.len(),
{
    reveal(Seq::filter);
    if s.len() > 0 {
        lemma_filter_keeps_all(s.drop_last(), keep);
        assert(s.drop_last().push(s.last()) =~= s);
    }
}

/// Law: signers that are accepted can reach their threshold, and it takes at
/// least one of them.
pub proof fn law_accepted_threshold_can_be_reached(
    state: OracleView,
    admin: Address,
    signers: Seq<Address>,
    threshold: u32,
)
    requires
        state.storage.multisig_refusal(admin, signers, threshold) is None,
    ensures
        state.storage.admin == Some(admin),
        0 < threshold <= signers.len(),
        state.multisig_set(signers, threshold).storage.multisig == Some(
            MultiSigConfigView { signers, threshold },
        ),
{
}

/// Law: a slash never takes more than the stake, and never leaves less than
/// nothing. What it takes and what it leaves make up the stake.
pub proof fn law_slash_is_bounded_by_the_stake(
    state: OracleView,
    source: Address,
    amount: i128,
    reason: Seq<char>,
)
    requires
        amount >= 0,
        state.storage.stake_of(source) >= 0,
    ensures
        ({
            let before = state.storage.stake_of(source);
            let after = state.source_slashed(source, amount, reason).storage.stake_of(source);
            let taken = state.storage.slashed(source, amount);
            &&& 0 <= taken <= amount
            &&& 0 <= after <= before
            &&& before == after + taken
        }),
{
}

/// Law: a slash of what was just staked gives the stake that was there, and the
/// stakes of other sources stay.
pub proof fn law_slash_undoes_stake(
    state: OracleView,
    source: Address,
    amount: i128,
    token: Address,
    reason: Seq<char>,
    other: Address,
)
    requires
        state.storage.stake_of(source) >= 0,
        state.storage.stake_of(source) + amount <= i128::MAX,
        other != source,
    ensures
        ({
            let after = state.staked(source, amount, token).source_slashed(
                source,
                amount,
                reason,
            ).storage;
            &&& after.stake_of(source) == state.storage.stake_of(source)
            &&& after.stake_of(other) == state.storage.stake_of(other)
        }),
{
}

/// Law: fees are paid out once. A withdrawal leaves none, and another one moves
/// nothing.
pub proof fn law_fees_are_paid_out_once(state: OracleView, to: Address, other: Address)
    ensures
        state.fees_withdrawn(to).storage.fee_balance <= 0,
        state.fees_withdrawn(to).fees_withdrawn(other) == state.fees_withdrawn(to),
{
}

/// Law: paying rent changes nothing that the contract stores.
pub proof fn law_rent_changes_no_storage(state: OracleView, asset: Seq<char>, window: TtlWindow)
    ensures
        state.after(OracleCall::ExtendStorageTtl).storage == state.storage,
        state.after(OracleCall::ExtendInstanceTtl { window }).storage == state.storage,
        state.after(OracleCall::ExtendPriceHistoryTtl { asset, window }).storage == state.storage,
{
}

/// Law: rent is paid for the instance storage and for the history of every asset
/// that has one.
pub proof fn law_rent_covers_every_history(state: OracleView, asset: Seq<char>)
    requires
        state.storage.consistent(),
        state.storage.history.contains_key(asset),
    ensures
        state.storage_extended().effects.contains(
            EffectView::ExtendInstanceTtl { window: None },
        ),
        state.storage_extended().effects.contains(
            EffectView::ExtendHistoryTtl { asset, window: None },
        ),
{
    let n = state.effects.len() as int;
    let effects = state.storage_extended().effects;
    assert(effects[n] == EffectView::ExtendInstanceTtl { window: None });
    assert(state.storage.latest.contains_key(asset));
    assert(state.storage.assets.contains(asset));
    let i = state.storage.assets.index_of(asset);
    assert(state.storage.assets[i] == asset);
    assert(effects[n + 1 + i] == EffectView::ExtendHistoryTtl { asset, window: None });
}

/// Law: a call asks the ledger only for more; within an invocation nothing that
/// was asked for is taken back.
pub proof fn law_effects_only_grow(state: OracleView, call: OracleCall)
    requires
        !(call is Begin),
    ensures
        state.effects.is_prefix_of(state.after(call).effects),
        state.after(call).contract == state.contract,
        state.after(call).timestamp == state.timestamp,
        state.after(call).authorized == state.authorized,
{
    let before = state.effects;
    let after = state.after(call).effects;
    assert(before =~= after.subrange(0, before.len() as int));
}

/// Law: forgetting a reputation leaves none for the source, and all others as
/// they are.
pub proof fn law_reset_reputation_is_forgotten(
    state: OracleView,
    admin: Address,
    source: Address,
    other: Address,
)
    requires
        state.storage.admin == Some(admin),
        other != source,
    ensures
        ({
            let before = state.storage.reputations;
            let after = state.after(
                OracleCall::ResetReputation { admin, source },
            ).storage.reputations;
            &&& !after.contains_key(source)
            &&& after.contains_key(other) == before.contains_key(other)
            &&& after.contains_key(other) ==> after[other] == before[other]
        }),
{
}

/// Law: whoever is not the administrator is refused every call that only the
/// administrator may make, and the contract stays as it was.
pub proof fn law_only_the_admin_configures(state: OracleView, call: OracleCall, caller: Address)
    requires
        state.storage.admin != Some(caller),
        match call {
            OracleCall::SetDeviationThreshold { admin, .. } => admin == caller,
            OracleCall::ResetReputation { admin, .. } => admin == caller,
            OracleCall::InitMultisig { admin, .. } => admin == caller,
            OracleCall::AddOracleSource { admin, .. } => admin == caller,
            OracleCall::RemoveOracleSource { admin, .. } => admin == caller,
            OracleCall::SetTrustedAsset { admin, .. } => admin == caller,
            _ => false,
        },
    ensures
        state.refusal(call) == Some(OracleError::Unauthorized),
        state.after(call) == state,
{
}

/// Law: whoever is not a signer can neither put up, nor approve, nor execute a
/// proposal, and the contract stays as it was.
pub proof fn law_only_signers_decide(state: OracleView, call: OracleCall, caller: Address)
    requires
        state.storage.multisig matches Some(config) ==> !config.signers.contains(caller),
        match call {
            OracleCall::CreateProposal { proposer, .. } => proposer == caller,
            OracleCall::ApproveProposal { signer, .. } => signer == caller,
            OracleCall::ExecuteProposal { signer, .. } => signer == caller,
            _ => false,
        },
    ensures
        state.refusal(call) == Some(
            if state.storage.multisig is None {
                OracleError::MultiSigNotInitialized
            } else {
                OracleError::NotASigner
            },
        ),
        state.after(call) == state,
{
}

/// Law: in a consistent storage no price that a query gives is negative, nor is
/// its dollar value.
pub proof fn law_prices_are_not_negative(storage: StorageView, asset: Seq<char>)
    requires
        storage.consistent(),
    ensures
        storage.asset_price(asset) matches Some(price) ==> {
            &&& price.price >= 0
            &&& price.price_usd matches Some(value) ==> value >= 0
        },
{
    if storage.latest.contains_key(asset) {
        lemma_latest_price_is_not_negative(storage, asset);
        vstd::arithmetic::power::lemma_pow_positive(10, storage.latest[asset].decimals as nat);
    }
    if storage.latest.contains_key(asset) && storage.latest.contains_key(xlm()) {
        lemma_latest_price_is_not_negative(storage, xlm());
        let rate = storage.latest[xlm()];
        let price = storage.latest[asset].price as int;
        let scale = vstd::arithmetic::power::pow(10, rate.decimals as nat);
        vstd::arithmetic::power::lemma_pow_positive(10, rate.decimals as nat);
        assert(price * rate.price >= 0) by (nonlinear_arith)
            requires
                price >= 0,
                rate.price >= 0,
        ;
        vstd::arithmetic::div_mod::lemma_div_pos_is_pos(price * rate.price, scale);
    }
}

proof fn lemma_latest_price_is_not_negative(storage: StorageView, asset: Seq<char>)
    requires
        storage.consistent(),
        storage.latest.contains_key(asset),
    ensures
        storage.latest[asset].price >= 0,
{
    assert(storage.history.contains_key(asset));
    let all = storage.history[asset];
    assert(all[all.len() - 1].price >= 0);
}

/// Law: a dollar coin that has a price counts as one dollar, whatever that price
/// is, and a price of XLM is its dollar value.
pub proof fn law_dollar_and_xlm_are_anchors(storage: StorageView)
    ensures
        storage.asset_price(xlm()) matches Some(price) ==> price.price_usd == Some(
            price.price as int,
        ),
        storage.asset_price(usdc()) matches Some(price) ==> price.price_usd == Some(
            vstd::arithmetic::power::pow(10, price.decimals as nat),
        ),
{
    reveal_strlit("XLM");
    reveal_strlit("USDC");
    assert(xlm().len() != usdc().len());
}

} // verus!
