//! The calls that can change something, as values: when each can be made, when
//! the contract refuses it, and what it leads to.

use crate::address::Address;
use crate::errors::OracleError;
use crate::model::{OracleView, StorageView};
use crate::types::{EffectView, PricePoint, ProposalActionView, TtlWindow};
use vstd::prelude::*;

verus! {

/// A call of an entry point that can change something, or the start of an
/// invocation. The judgements that the deploying contract hands in stand with
/// the arguments.
pub enum OracleCall {
    Begin { timestamp: u64, authorized: Seq<Address> },
    Initialize { admin: Address },
    SubmitPrice { asset: Seq<char>, point: PricePoint, deviates: bool, reputation: Seq<u8> },
    SubmitBatch { source: Address, nonce: u64, root: Seq<u8> },
    ApplyBatchEntry {
        batch_nonce: u64,
        leaf_index: u32,
        asset: Seq<char>,
        point: PricePoint,
        holds: bool,
    },
    SetDeviationThreshold { admin: Address, threshold_bps: u32 },
    ResetReputation { admin: Address, source: Address },
    InitMultisig { admin: Address, signers: Seq<Address>, threshold: u32 },
    CreateProposal { proposer: Address, action: ProposalActionView },
    ApproveProposal { signer: Address, proposal_id: u32 },
    ExecuteProposal { signer: Address, proposal_id: u32 },
    ExtendPriceHistoryTtl { asset: Seq<char>, window: TtlWindow },
    ExtendInstanceTtl { window: TtlWindow },
    AddOracleSource { admin: Address, source: Address, name: Seq<char> },
    RemoveOracleSource { admin: Address, source: Address },
    SetTrustedAsset { admin: Address, asset: Seq<char>, trusted: bool },
    SetQueryFee { fee: i128 },
    SetWhitelist { addr: Address, status: bool },
    WithdrawFees { to: Address },
    Stake { source: Address, amount: i128, token: Address },
    Slash { source: Address, amount: i128, reason: Seq<char> },
    ExtendStorageTtl,
}

impl OracleView {
    /// Why the contract refuses `call`.
    pub open spec fn refusal(self, call: OracleCall) -> Option<OracleError> {
        let s = self.storage;
        match call {
            OracleCall::Initialize { admin } => if s.admin is Some {
                Some(OracleError::AlreadyInitialized)
            } else {
                None
            },
            OracleCall::SubmitPrice { asset, point, deviates, reputation } => {
                s.submission_refusal(point.source, asset, point.price, deviates)
            },
            OracleCall::SubmitBatch { source, nonce, root } => s.batch_refusal(source, nonce, root),
            OracleCall::ApplyBatchEntry { batch_nonce, leaf_index, asset, point, holds } => {
                s.entry_refusal(batch_nonce, point.price, leaf_index, holds)
            },
            OracleCall::SetDeviationThreshold { admin, threshold_bps } => s.admin_refusal(admin),
            OracleCall::ResetReputation { admin, source } => s.admin_refusal(admin),
            OracleCall::InitMultisig { admin, signers, threshold } => {
                s.multisig_refusal(admin, signers, threshold)
            },
            OracleCall::CreateProposal { proposer, action } => s.signer_refusal(proposer),
            OracleCall::ApproveProposal { signer, proposal_id } => {
                s.approval_refusal(signer, proposal_id)
            },
            OracleCall::ExecuteProposal { signer, proposal_id } => {
                s.execution_refusal(signer, proposal_id)
            },
            OracleCall::AddOracleSource { admin, source, name } => s.admin_refusal(admin),
            OracleCall::RemoveOracleSource { admin, source } => s.admin_refusal(admin),
            OracleCall::SetTrustedAsset { admin, asset, trusted } => s.admin_refusal(admin),
            _ => None,
        }
    }

    /// What an accepted `call` leads to.
    pub open spec fn accepted(self, call: OracleCall) -> OracleView {
        let s = self.storage;
        match call {
            OracleCall::Begin { timestamp, authorized } => self.begun(timestamp, authorized),
            OracleCall::Initialize { admin } => self.initialized(admin),
            OracleCall::SubmitPrice { asset, point, deviates, reputation } => {
                self.price_submitted(asset, point, reputation)
            },
            OracleCall::SubmitBatch { source, nonce, root } => {
                self.batch_submitted(source, nonce, root)
            },
            OracleCall::ApplyBatchEntry { batch_nonce, leaf_index, asset, point, holds } => {
                self.entry_applied(batch_nonce, leaf_index, asset, point)
            },
            OracleCall::SetDeviationThreshold { admin, threshold_bps } => {
                self.with_storage(StorageView { deviation_threshold: Some(threshold_bps), ..s })
            },
            OracleCall::ResetReputation { admin, source } => {
                self.with_storage(StorageView { reputations: s.reputations.remove(source), ..s })
            },
            OracleCall::InitMultisig { admin, signers, threshold } => {
                self.multisig_set(signers, threshold)
            },
            OracleCall::CreateProposal { proposer, action } => {
                self.proposal_created(proposer, action)
            },
            OracleCall::ApproveProposal { signer, proposal_id } => {
                self.proposal_approved(signer, proposal_id)
            },
            OracleCall::ExecuteProposal { signer, proposal_id } => {
                self.proposal_executed(signer, proposal_id)
            },
            OracleCall::ExtendPriceHistoryTtl { asset, window } => {
                self.with_effect(EffectView::ExtendHistoryTtl { asset, window: Some(window) })
            },
            OracleCall::ExtendInstanceTtl { window } => {
                self.with_effect(EffectView::ExtendInstanceTtl { window: Some(window) })
            },
            OracleCall::AddOracleSource { admin, source, name } => {
                self.with_storage(StorageView { sources: s.sources.insert(source, name), ..s })
            },
            OracleCall::RemoveOracleSource { admin, source } => {
                self.with_storage(StorageView { sources: s.sources.remove(source), ..s })
            },
            OracleCall::SetTrustedAsset { admin, asset, trusted } => {
                self.with_storage(StorageView { trusted: s.trusted.insert(asset, trusted), ..s })
            },
            OracleCall::SetQueryFee { fee } => {
                self.with_storage(StorageView { query_fee: fee, ..s })
            },
            OracleCall::SetWhitelist { addr, status } => {
                self.with_storage(StorageView { whitelist: s.whitelist.insert(addr, status), ..s })
            },
            OracleCall::WithdrawFees { to } => self.fees_withdrawn(to),
            OracleCall::Stake { source, amount, token } => self.staked(source, amount, token),
            OracleCall::Slash { source, amount, reason } => {
                self.source_slashed(source, amount, reason)
            },
            OracleCall::ExtendStorageTtl => self.storage_extended(),
        }
    }

    /// What `call` leads to.
    pub open spec fn after(self, call: OracleCall) -> OracleView {
        if self.refusal(call) is Some {
            self
        } else {
            self.accepted(call)
        }
    }

    /// Whether `call` can be made: whoever must authorize it did, and the counters
    /// and the host vectors have room for what it adds.
    pub open spec fn allows(self, call: OracleCall) -> bool {
        let s = self.storage;
        match call {
            OracleCall::SubmitPrice { asset, point, deviates, reputation } => {
                &&& self.authorized.contains(point.source)
                &&& self.refusal(call) is None ==> s.history_of(asset).len() < u32::MAX
            },
            OracleCall::SubmitBatch { source, nonce, root } => {
                &&& self.authorized.contains(source)
                &&& self.refusal(call) is None ==> s.batch_nonce < u64::MAX
            },
            OracleCall::ApplyBatchEntry { batch_nonce, leaf_index, asset, point, holds } => {
                self.refusal(call) is None ==> s.history_of(asset).len() < u32::MAX
            },
            OracleCall::SetDeviationThreshold { admin, threshold_bps } => {
                self.authorized.contains(admin)
            },
            OracleCall::ResetReputation { admin, source } => self.authorized.contains(admin),
            OracleCall::InitMultisig { admin, signers, threshold } => {
                &&& self.authorized.contains(admin)
                &&& signers.len() <= u32::MAX
            },
            OracleCall::CreateProposal { proposer, action } => {
                &&& self.authorized.contains(proposer)
                &&& self.refusal(call) is None ==> s.proposal_count < u32::MAX
            },
            OracleCall::ApproveProposal { signer, proposal_id } => {
                &&& self.authorized.contains(signer)
                &&& self.refusal(call) is None ==> s.proposals[proposal_id].approvals.len()
                    < u32::MAX
            },
            OracleCall::ExecuteProposal { signer, proposal_id } => {
                &&& self.authorized.contains(signer)
                &&& self.refusal(call) is None ==> s.action_fits(s.proposals[proposal_id].action)
            },
            OracleCall::AddOracleSource { admin, source, name } => self.authorized.contains(admin),
            OracleCall::RemoveOracleSource { admin, source } => self.authorized.contains(admin),
            OracleCall::SetTrustedAsset { admin, asset, trusted } => self.authorized.contains(admin),
            OracleCall::SetQueryFee { fee } => self.admin_authorized(),
            OracleCall::SetWhitelist { addr, status } => self.admin_authorized(),
            OracleCall::WithdrawFees { to } => self.admin_authorized(),
            OracleCall::Stake { source, amount, token } => {
                &&& self.authorized.contains(source)
                &&& i128::MIN <= s.stake_of(source) + amount <= i128::MAX
            },
            OracleCall::Slash { source, amount, reason } => {
                &&& self.admin_authorized()
                &&& s.stake_of(source) - amount <= i128::MAX
                &&& s.slash_count_of(source) < u32::MAX
            },
            _ => true,
        }
    }

    /// Whether `call` can be made, and leads to `later`.
    pub open spec fn steps_to(self, call: OracleCall, later: OracleView) -> bool {
        self.allows(call) && later == self.after(call)
    }

    /// What a sequence of calls leads to.
    pub open spec fn run(self, calls: Seq<OracleCall>) -> OracleView
        decreases calls.len(),
    {
        if calls.len() == 0 {
            self
        } else {
            self.run(calls.drop_last()).after(calls.last())
        }
    }

    /// Whether each of a sequence of calls can be made where it is made.
    pub open spec fn allows_all(self, calls: Seq<OracleCall>) -> bool
        decreases calls.len(),
    {
        calls.len() > 0 ==> self.allows_all(calls.drop_last()) && self.run(calls.drop_last()).allows(
            calls.last(),
        )
    }
}

} // verus!
