//! The mathematical model of the contract: what it stores, when it refuses a
//! call, and what a call that it accepts changes.

use crate::address::Address;
use crate::errors::OracleError;
use crate::types::{
    AssetPriceView, EffectView, MultiSigConfigView, MultiSigProposalView, PriceDataPointView,
    PricePoint, ProposalActionView, TtlWindow,
};
use vstd::arithmetic::power::pow;
use vstd::prelude::*;

verus! {

/// The contract's storage.
#[verifier::ext_equal]
pub struct StorageView {
    /// The administrator, once the contract is initialized.
    pub admin: Option<Address>,
    /// The version of the storage layout, once the contract is initialized.
    pub layout_version: Option<u32>,
    /// Whether the emergency pause is on.
    pub paused: bool,
    /// The registered sources and their names.
    pub sources: Map<Address, Seq<char>>,
    /// The assets that were marked, and whether as trusted.
    pub trusted: Map<Seq<char>, bool>,
    /// The largest admitted deviation, in basis points.
    pub deviation_threshold: Option<u32>,
    /// The latest price of each asset.
    pub latest: Map<Seq<char>, PricePoint>,
    /// The assets that have a price, in the order of their first ones.
    pub assets: Seq<Seq<char>>,
    /// The recorded prices of each asset, the oldest first.
    pub history: Map<Seq<char>, Seq<PricePoint>>,
    /// The reputation records of the sources.
    pub reputations: Map<Address, Seq<u8>>,
    /// The nonce of the next batch.
    pub batch_nonce: u64,
    /// The roots of the committed batches.
    pub batch_roots: Map<u64, Seq<u8>>,
    /// The leaves that were applied, each with the nonce of its batch.
    pub applied: Set<(u64, u32)>,
    /// The signers and their threshold.
    pub multisig: Option<MultiSigConfigView>,
    /// The identifier of the next proposal.
    pub proposal_count: u32,
    /// The proposals.
    pub proposals: Map<u32, MultiSigProposalView>,
    /// The fee of a query.
    pub query_fee: i128,
    /// The addresses that were put on the whitelist, and with which status.
    pub whitelist: Map<Address, bool>,
    /// The fees that were collected and not withdrawn.
    pub fee_balance: i128,
    /// The stakes of the sources.
    pub stakes: Map<Address, i128>,
    /// How often each source was slashed.
    pub slash_counts: Map<Address, u32>,
}

/// The symbol of the asset that prices are quoted in.
pub open spec fn xlm() -> Seq<char> {
    "XLM"@
}

/// The symbol of the asset that stands for one dollar.
pub open spec fn usdc() -> Seq<char> {
    "USDC"@
}

/// The quotient of `x` by the positive `d`, rounded toward zero.
pub open spec fn quotient_toward_zero(x: int, d: int) -> int {
    if x >= 0 {
        x / d
    } else {
        -((-x) / d)
    }
}

impl StorageView {
    /// The storage of a contract that was just deployed.
    pub open spec fn initial() -> StorageView {
        StorageView {
            admin: None,
            layout_version: None,
            paused: false,
            sources: Map::empty(),
            trusted: Map::empty(),
            deviation_threshold: None,
            latest: Map::empty(),
            assets: Seq::empty(),
            history: Map::empty(),
            reputations: Map::empty(),
            batch_nonce: 0,
            batch_roots: Map::empty(),
            applied: Set::empty(),
            multisig: None,
            proposal_count: 0,
            proposals: Map::empty(),
            query_fee: 0,
            whitelist: Map::empty(),
            fee_balance: 0,
            stakes: Map::empty(),
            slash_counts: Map::empty(),
        }
    }

    /// The recorded prices of `asset`; none for an asset that never had one.
    pub open spec fn history_of(self, asset: Seq<char>) -> Seq<PricePoint> {
        if self.history.contains_key(asset) {
            self.history[asset]
        } else {
            Seq::empty()
        }
    }

    /// Whether `asset` is marked as trusted.
    pub open spec fn is_trusted(self, asset: Seq<char>) -> bool {
        self.trusted.contains_key(asset) && self.trusted[asset]
    }

    /// The stake of `source`; zero for a source that never staked.
    pub open spec fn stake_of(self, source: Address) -> i128 {
        if self.stakes.contains_key(source) {
            self.stakes[source]
        } else {
            0
        }
    }

    /// How often `source` was slashed.
    pub open spec fn slash_count_of(self, source: Address) -> u32 {
        if self.slash_counts.contains_key(source) {
            self.slash_counts[source]
        } else {
            0
        }
    }

    /// The storage once `point` is the latest price of `asset`.
    pub open spec fn with_latest(self, asset: Seq<char>, point: PricePoint) -> StorageView {
        StorageView {
            latest: self.latest.insert(asset, point),
            assets: if self.latest.contains_key(asset) {
                self.assets
            } else {
                self.assets.push(asset)
            },
            ..self
        }
    }

    /// The storage once `point` is at the end of the history of `asset`.
    pub open spec fn with_history(self, asset: Seq<char>, point: PricePoint) -> StorageView {
        StorageView {
            history: self.history.insert(asset, self.history_of(asset).push(point)),
            ..self
        }
    }

    /// The storage once `point` is recorded for `asset`: it is the latest price,
    /// and the last one of the history.
    pub open spec fn with_price(self, asset: Seq<char>, point: PricePoint) -> StorageView {
        self.with_latest(asset, point).with_history(asset, point)
    }

    /// The storage once the signers' decision for `action` is carried out.
    pub open spec fn with_action(self, action: ProposalActionView) -> StorageView {
        match action {
            ProposalActionView::AddSource(source, name) => {
                StorageView { sources: self.sources.insert(source, name), ..self }
            },
            ProposalActionView::RemoveSource(source) => {
                StorageView { sources: self.sources.remove(source), ..self }
            },
            ProposalActionView::SetTrustedAsset(asset, trusted) => {
                StorageView { trusted: self.trusted.insert(asset, trusted), ..self }
            },
            ProposalActionView::TransferAdmin(admin) => {
                StorageView { admin: Some(admin), ..self }
            },
            ProposalActionView::SetDeviationThreshold(bps) => {
                StorageView { deviation_threshold: Some(bps), ..self }
            },
            ProposalActionView::ResetReputation(source) => {
                StorageView { reputations: self.reputations.remove(source), ..self }
            },
            ProposalActionView::AddSigner(signer) => {
                StorageView {
                    multisig: match self.multisig {
                        Some(config) if !config.signers.contains(signer) => Some(
                            MultiSigConfigView { signers: config.signers.push(signer), ..config },
                        ),
                        unchanged => unchanged,
                    },
                    ..self
                }
            },
            ProposalActionView::RemoveSigner(signer) => {
                StorageView {
                    multisig: match self.multisig {
                        Some(config) => Some(
                            MultiSigConfigView {
                                signers: config.signers.filter(|a: Address| a != signer),
                                ..config
                            },
                        ),
                        None => None,
                    },
                    ..self
                }
            },
            ProposalActionView::SetThreshold(threshold) => {
                StorageView {
                    multisig: match self.multisig {
                        Some(config) => Some(MultiSigConfigView { threshold, ..config }),
                        None => None,
                    },
                    ..self
                }
            },
            ProposalActionView::Pause => StorageView { paused: true, ..self },
            ProposalActionView::Unpause => StorageView { paused: false, ..self },
            ProposalActionView::Other => self,
        }
    }

    /// Whether carrying `action` out keeps the list of signers within what a
    /// host vector can hold.
    pub open spec fn action_fits(self, action: ProposalActionView) -> bool {
        action matches ProposalActionView::AddSigner(signer) ==> self.multisig matches Some(config)
            ==> config.signers.len() < u32::MAX
    }

    /// The dollar value of `price` for `asset`. A price of XLM is one already. A
    /// dollar coin with a price counts as one dollar, in `decimals` decimals. Any
    /// other price is in XLM and is taken times the latest price of XLM, where
    /// there is one.
    pub open spec fn usd_price(self, asset: Seq<char>, price: i128, decimals: u32) -> Option<int> {
        if asset == xlm() {
            Some(price as int)
        } else if asset == usdc() && self.latest.contains_key(usdc()) {
            Some(pow(10, decimals as nat))
        } else if self.latest.contains_key(xlm()) {
            let rate = self.latest[xlm()];
            Some(quotient_toward_zero(price * rate.price, pow(10, rate.decimals as nat)))
        } else {
            None
        }
    }

    /// Whether the numbers that the dollar value is made of fit in 128 bits.
    pub open spec fn usd_price_fits(self, asset: Seq<char>, price: i128, decimals: u32) -> bool {
        if asset == xlm() {
            true
        } else if asset == usdc() && self.latest.contains_key(usdc()) {
            pow(10, decimals as nat) <= i128::MAX
        } else if self.latest.contains_key(xlm()) {
            let rate = self.latest[xlm()];
            &&& i128::MIN <= price * rate.price <= i128::MAX
            &&& pow(10, rate.decimals as nat) <= i128::MAX
        } else {
            true
        }
    }

    /// What a query for the price of `asset` gives.
    pub open spec fn asset_price(self, asset: Seq<char>) -> Option<AssetPriceView> {
        if self.latest.contains_key(asset) {
            let point = self.latest[asset];
            Some(
                AssetPriceView {
                    asset,
                    price: point.price,
                    decimals: point.decimals,
                    price_usd: self.usd_price(asset, point.price, point.decimals),
                    timestamp: point.timestamp,
                    source: point.source,
                    num_sources: self.sources.dom().len(),
                    is_trusted: self.is_trusted(asset),
                },
            )
        } else {
            None
        }
    }

    /// The last `limit` recorded prices of `asset`, or all where there are fewer.
    pub open spec fn recent_prices(self, asset: Seq<char>, limit: u32) -> Seq<PriceDataPointView> {
        let all = self.history_of(asset);
        let start = if all.len() > limit {
            all.len() - limit
        } else {
            0
        };
        all.skip(start).map_values(|point: PricePoint| PriceDataPointView::of(asset, point))
    }

    /// Why a call that only the administrator may make is refused to `caller`.
    pub open spec fn admin_refusal(self, caller: Address) -> Option<OracleError> {
        if self.admin == Some(caller) {
            None
        } else {
            Some(OracleError::Unauthorized)
        }
    }

    /// Whether a submitted price of `asset` is held against the previous one.
    pub open spec fn deviation_applies(self, asset: Seq<char>) -> bool {
        self.deviation_threshold is Some && self.latest.contains_key(asset)
    }

    /// Why a price submission is refused, where `deviates` says that the price is
    /// too far from the previous one.
    pub open spec fn submission_refusal(
        self,
        source: Address,
        asset: Seq<char>,
        price: i128,
        deviates: bool,
    ) -> Option<OracleError> {
        if self.paused {
            Some(OracleError::ContractPaused)
        } else if !self.sources.contains_key(source) {
            Some(OracleError::UnauthorizedSource)
        } else if price < 0 {
            Some(OracleError::InvalidPrice)
        } else if self.deviation_applies(asset) && deviates {
            Some(OracleError::PriceDeviationTooLarge)
        } else {
            None
        }
    }

    /// Why the commitment of a batch is refused.
    pub open spec fn batch_refusal(self, source: Address, nonce: u64, root: Seq<u8>) -> Option<
        OracleError,
    > {
        if self.paused {
            Some(OracleError::ContractPaused)
        } else if !self.sources.contains_key(source) {
            Some(OracleError::UnauthorizedSource)
        } else if root.len() != 32 {
            Some(OracleError::InvalidMerkleProof)
        } else if nonce != self.batch_nonce {
            Some(OracleError::BatchNonceMismatch)
        } else {
            None
        }
    }

    /// Why a price of a batch is not applied, where `holds` says that its
    /// inclusion proof holds.
    pub open spec fn entry_refusal(
        self,
        batch_nonce: u64,
        price: i128,
        leaf_index: u32,
        holds: bool,
    ) -> Option<OracleError> {
        if !self.batch_roots.contains_key(batch_nonce) {
            Some(OracleError::BatchRootNotFound)
        } else if price < 0 {
            Some(OracleError::InvalidPrice)
        } else if !holds {
            Some(OracleError::InvalidMerkleProof)
        } else if self.applied.contains((batch_nonce, leaf_index)) {
            Some(OracleError::BatchEntryAlreadyApplied)
        } else {
            None
        }
    }

    /// Why signers with a threshold are not accepted from `caller`.
    pub open spec fn multisig_refusal(
        self,
        caller: Address,
        signers: Seq<Address>,
        threshold: u32,
    ) -> Option<OracleError> {
        if self.admin_refusal(caller) is Some {
            self.admin_refusal(caller)
        } else if threshold == 0 || threshold > signers.len() {
            Some(OracleError::InvalidThreshold)
        } else {
            None
        }
    }

    /// Why a call that only signers may make is refused to `caller`.
    pub open spec fn signer_refusal(self, caller: Address) -> Option<OracleError> {
        match self.multisig {
            None => Some(OracleError::MultiSigNotInitialized),
            Some(config) => if config.signers.contains(caller) {
                None
            } else {
                Some(OracleError::NotASigner)
            },
        }
    }

    /// Why `signer` can do nothing more about the proposal `id`.
    pub open spec fn open_proposal_refusal(self, signer: Address, id: u32) -> Option<OracleError> {
        if self.signer_refusal(signer) is Some {
            self.signer_refusal(signer)
        } else if !self.proposals.contains_key(id) {
            Some(OracleError::ProposalNotFound)
        } else if self.proposals[id].executed == 1 {
            Some(OracleError::ProposalAlreadyExecuted)
        } else {
            None
        }
    }

    /// Why the approval of proposal `id` by `signer` is refused.
    pub open spec fn approval_refusal(self, signer: Address, id: u32) -> Option<OracleError> {
        if self.open_proposal_refusal(signer, id) is Some {
            self.open_proposal_refusal(signer, id)
        } else if self.proposals[id].approvals.contains(signer) {
            Some(OracleError::AlreadyApproved)
        } else {
            None
        }
    }

    /// Why the execution of proposal `id` by `signer` is refused.
    pub open spec fn execution_refusal(self, signer: Address, id: u32) -> Option<OracleError> {
        if self.open_proposal_refusal(signer, id) is Some {
            self.open_proposal_refusal(signer, id)
        } else if self.proposals[id].approvals.len() < self.multisig->0.threshold {
            Some(OracleError::ThresholdNotMet)
        } else {
            None
        }
    }

    /// The storage once `proposal` is kept under its identifier.
    pub open spec fn with_proposal(self, proposal: MultiSigProposalView) -> StorageView {
        StorageView { proposals: self.proposals.insert(proposal.id, proposal), ..self }
    }

    /// What a slash of `amount` takes from `source`: no more than the stake.
    pub open spec fn slashed(self, source: Address, amount: i128) -> i128 {
        if amount > self.stake_of(source) {
            self.stake_of(source)
        } else {
            amount
        }
    }
}

/// The contract's storage and the invocation under way.
#[verifier::ext_equal]
pub struct OracleView {
    /// The contract's storage.
    pub storage: StorageView,
    /// The address of the contract itself.
    pub contract: Address,
    /// The time of the ledger that the invocation is in.
    pub timestamp: u64,
    /// The addresses that authorized the invocation.
    pub authorized: Seq<Address>,
    /// What the ledger is asked to do, in order.
    pub effects: Seq<EffectView>,
}

impl OracleView {
    /// A contract that was just deployed, before any invocation.
    pub open spec fn initial(contract: Address) -> OracleView {
        OracleView {
            storage: StorageView::initial(),
            contract,
            timestamp: 0,
            authorized: Seq::empty(),
            effects: Seq::empty(),
        }
    }

    /// The start of an invocation.
    pub open spec fn begun(self, timestamp: u64, authorized: Seq<Address>) -> OracleView {
        OracleView { timestamp, authorized, effects: Seq::empty(), ..self }
    }

    /// The state with other storage.
    pub open spec fn with_storage(self, storage: StorageView) -> OracleView {
        OracleView { storage, ..self }
    }

    /// The state once the ledger is asked for one thing more.
    pub open spec fn with_effect(self, effect: EffectView) -> OracleView {
        OracleView { effects: self.effects.push(effect), ..self }
    }

    /// Whether the administrator is set and authorized the invocation.
    pub open spec fn admin_authorized(self) -> bool {
        self.storage.admin matches Some(admin) && self.authorized.contains(admin)
    }

    /// Initialized by `admin`.
    pub open spec fn initialized(self, admin: Address) -> OracleView {
        self.with_storage(
            StorageView { admin: Some(admin), layout_version: Some(1), ..self.storage },
        )
    }

    /// An accepted price submission.
    pub open spec fn price_submitted(
        self,
        asset: Seq<char>,
        point: PricePoint,
        reputation: Seq<u8>,
    ) -> OracleView {
        let storage = StorageView {
            reputations: self.storage.reputations.insert(point.source, reputation),
            ..self.storage
        };
        self.with_storage(storage.with_price(asset, point)).with_effect(
            EffectView::PriceSubmitted {
                asset,
                source: point.source,
                price: point.price,
                timestamp: point.timestamp,
            },
        )
    }

    /// A committed batch.
    pub open spec fn batch_submitted(self, source: Address, nonce: u64, root: Seq<u8>) -> OracleView {
        self.with_storage(
            StorageView {
                batch_roots: self.storage.batch_roots.insert(nonce, root),
                batch_nonce: (self.storage.batch_nonce + 1) as u64,
                ..self.storage
            },
        ).with_effect(EffectView::BatchSubmitted { source, nonce, root })
    }

    /// An applied price of a batch.
    pub open spec fn entry_applied(
        self,
        batch_nonce: u64,
        leaf_index: u32,
        asset: Seq<char>,
        point: PricePoint,
    ) -> OracleView {
        let storage = StorageView {
            applied: self.storage.applied.insert((batch_nonce, leaf_index)),
            ..self.storage
        };
        self.with_storage(storage.with_price(asset, point)).with_effect(
            EffectView::BatchEntryApplied { asset, batch_nonce, price: point.price },
        )
    }

    /// Signers with a threshold.
    pub open spec fn multisig_set(self, signers: Seq<Address>, threshold: u32) -> OracleView {
        self.with_storage(
            StorageView {
                multisig: Some(MultiSigConfigView { signers, threshold }),
                ..self.storage
            },
        )
    }

    /// A new proposal, which its proposer approves.
    pub open spec fn proposal_created(self, proposer: Address, action: ProposalActionView) -> OracleView {
        let id = self.storage.proposal_count;
        self.with_storage(
            StorageView {
                proposal_count: (id + 1) as u32,
                ..self.storage.with_proposal(
                    MultiSigProposalView {
                        id,
                        action,
                        approvals: seq![proposer],
                        executed: 0,
                        created_at: self.timestamp,
                        proposer,
                    },
                )
            },
        )
    }

    /// One approval more for proposal `id`.
    pub open spec fn proposal_approved(self, signer: Address, id: u32) -> OracleView {
        let proposal = self.storage.proposals[id];
        self.with_storage(
            self.storage.with_proposal(
                MultiSigProposalView { approvals: proposal.approvals.push(signer), ..proposal },
            ),
        )
    }

    /// Proposal `id`, carried out.
    pub open spec fn proposal_executed(self, signer: Address, id: u32) -> OracleView {
        let proposal = self.storage.proposals[id];
        self.with_storage(
            self.storage.with_action(proposal.action).with_proposal(
                MultiSigProposalView { executed: 1, ..proposal },
            ),
        ).with_effect(EffectView::GovernanceExecuted { signer, proposal_id: id })
    }

    /// The collected fees, paid out to `to` in the token that `to` names.
    pub open spec fn fees_withdrawn(self, to: Address) -> OracleView {
        if self.storage.fee_balance > 0 {
            self.with_storage(StorageView { fee_balance: 0, ..self.storage }).with_effect(
                EffectView::Transfer {
                    token: to,
                    from: self.contract,
                    to,
                    amount: self.storage.fee_balance,
                },
            )
        } else {
            self
        }
    }

    /// A stake of `source`, raised by `amount` of `token`.
    pub open spec fn staked(self, source: Address, amount: i128, token: Address) -> OracleView {
        self.with_storage(
            StorageView {
                stakes: self.storage.stakes.insert(
                    source,
                    (self.storage.stake_of(source) + amount) as i128,
                ),
                ..self.storage
            },
        ).with_effect(
            EffectView::Transfer { token, from: source, to: self.contract, amount },
        ).with_effect(EffectView::SourceStaked { source, amount })
    }

    /// A slashed source.
    pub open spec fn source_slashed(self, source: Address, amount: i128, reason: Seq<char>) -> OracleView {
        let slashed = self.storage.slashed(source, amount);
        self.with_storage(
            StorageView {
                stakes: self.storage.stakes.insert(
                    source,
                    (self.storage.stake_of(source) - slashed) as i128,
                ),
                slash_counts: self.storage.slash_counts.insert(
                    source,
                    (self.storage.slash_count_of(source) + 1) as u32,
                ),
                ..self.storage
            },
        ).with_effect(EffectView::SourceSlashed { source, reason, slashed })
    }

    /// The rent of all storage, paid: the instance first, then the history of
    /// each asset.
    pub open spec fn storage_extended(self) -> OracleView {
        let none: Option<TtlWindow> = None;
        OracleView {
            effects: self.effects.push(EffectView::ExtendInstanceTtl { window: none })
                + self.storage.assets.map_values(
                |asset: Seq<char>| EffectView::ExtendHistoryTtl { asset, window: none },
            ),
            ..self
        }
    }
}

} // verus!
