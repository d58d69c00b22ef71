//! The values that the contract stores, takes and gives.

use crate::address::{Address, AddressList};
use vstd::prelude::*;

verus! {

/// One recorded price of an asset.
#[derive(Clone, Copy, Debug, PartialEq, Eq, Structural)]
pub struct PricePoint {
    pub price: i128,
    pub decimals: u32,
    pub timestamp: u64,
    pub source: Address,
}

impl View for PricePoint {
    type V = PricePoint;

    open spec fn view(&self) -> PricePoint {
        *self
    }
}

/// A recorded price together with the asset that it is of.
#[derive(Clone, Debug, PartialEq, Eq)]
pub struct PriceDataPoint {
    pub asset: String,
    pub price: i128,
    pub decimals: u32,
    pub timestamp: u64,
    pub source: Address,
}

/// The model of a [`PriceDataPoint`].
#[verifier::ext_equal]
pub struct PriceDataPointView {
    pub asset: Seq<char>,
    pub price: i128,
    pub decimals: u32,
    pub timestamp: u64,
    pub source: Address,
}

impl View for PriceDataPoint {
    type V = PriceDataPointView;

    open spec fn view(&self) -> PriceDataPointView {
        PriceDataPointView {
            asset: self.asset@,
            price: self.price,
            decimals: self.decimals,
            timestamp: self.timestamp,
            source: self.source,
        }
    }
}

impl PriceDataPointView {
    /// The recorded price `point`, as one of `asset`.
    pub open spec fn of(asset: Seq<char>, point: PricePoint) -> PriceDataPointView {
        PriceDataPointView {
            asset,
            price: point.price,
            decimals: point.decimals,
            timestamp: point.timestamp,
            source: point.source,
        }
    }
}

impl PriceDataPoint {
    /// The recorded price `point`, as one of `asset`.
    pub fn of(asset: &String, point: PricePoint) -> (data_point: PriceDataPoint)
        ensures
            data_point@ == PriceDataPointView::of(asset@, point),
    {
        PriceDataPoint {
            asset: asset.clone(),
            price: point.price,
            decimals: point.decimals,
            timestamp: point.timestamp,
            source: point.source,
        }
    }
}

/// What a price query gives.
#[derive(Clone, Debug, PartialEq, Eq)]
pub struct AssetPrice {
    pub asset: String,
    pub price: i128,
    pub decimals: u32,
    pub price_usd: Option<i128>,
    pub timestamp: u64,
    pub source: Address,
    pub num_sources: u64,
    pub is_trusted: bool,
}

/// The model of an [`AssetPrice`].
#[verifier::ext_equal]
pub struct AssetPriceView {
    pub asset: Seq<char>,
    pub price: i128,
    pub decimals: u32,
    pub price_usd: Option<int>,
    pub timestamp: u64,
    pub source: Address,
    pub num_sources: nat,
    pub is_trusted: bool,
}

impl View for AssetPrice {
    type V = AssetPriceView;

    open spec fn view(&self) -> AssetPriceView {
        AssetPriceView {
            asset: self.asset@,
            price: self.price,
            decimals: self.decimals,
            price_usd: match self.price_usd {
                Some(value) => Some(value as int),
                None => None,
            },
            timestamp: self.timestamp,
            source: self.source,
            num_sources: self.num_sources as nat,
            is_trusted: self.is_trusted,
        }
    }
}

/// One price of a committed batch.
#[derive(Clone, Debug, PartialEq, Eq)]
pub struct BatchPriceEntry {
    pub asset: String,
    pub price: i128,
    pub decimals: u32,
    pub timestamp: u64,
    pub source: Address,
}

impl BatchPriceEntry {
    /// The price that the entry records.
    pub open spec fn recorded(&self) -> PricePoint {
        PricePoint {
            price: self.price,
            decimals: self.decimals,
            timestamp: self.timestamp,
            source: self.source,
        }
    }

    /// The price that the entry records.
    pub fn point(&self) -> (point: PricePoint)
        ensures
            point == self.recorded(),
    {
        PricePoint {
            price: self.price,
            decimals: self.decimals,
            timestamp: self.timestamp,
            source: self.source,
        }
    }
}

/// The way from a leaf of a batch up to its root.
#[derive(Clone, Debug, PartialEq, Eq)]
pub struct MerkleProof {
    pub leaf_index: u32,
    pub siblings: Vec<Vec<u8>>,
}

/// The reputation of a source, as the scoring model encodes it. The contract
/// keeps the record and hands it out; it does not read it.
#[derive(Debug, PartialEq, Eq)]
pub struct SourceReputation {
    pub record: Vec<u8>,
}

impl View for SourceReputation {
    type V = Seq<u8>;

    open spec fn view(&self) -> Seq<u8> {
        self.record@
    }
}

impl Clone for SourceReputation {
    fn clone(&self) -> (copy: SourceReputation)
        ensures
            copy@ == self@,
    {
        SourceReputation { record: copy_bytes(&self.record) }
    }
}

/// A copy of a byte string.
pub fn copy_bytes(bytes: &Vec<u8>) -> (copy: Vec<u8>)
    ensures
        copy@ == bytes@,
{
    let copy = bytes.clone();
    assert(copy@ =~= bytes@);
    copy
}

/// A change that the signers can decide on.
#[derive(Debug, PartialEq, Eq)]
pub enum ProposalAction {
    /// Register a source under a name.
    AddSource(Address, String),
    /// Strike a source off.
    RemoveSource(Address),
    /// Mark an asset as trusted, or as not trusted.
    SetTrustedAsset(String, bool),
    /// Hand the administration over.
    TransferAdmin(Address),
    /// Set the largest admitted deviation, in basis points.
    SetDeviationThreshold(u32),
    /// Forget the reputation of a source.
    ResetReputation(Address),
    /// Add a signer.
    AddSigner(Address),
    /// Take a signer off.
    RemoveSigner(Address),
    /// Set the number of approvals that a proposal needs.
    SetThreshold(u32),
    /// Turn the emergency pause on.
    Pause,
    /// Turn the emergency pause off.
    Unpause,
    /// A decision that is put on record and changes nothing else.
    Other,
}

/// The model of a [`ProposalAction`].
#[verifier::ext_equal]
pub enum ProposalActionView {
    AddSource(Address, Seq<char>),
    RemoveSource(Address),
    SetTrustedAsset(Seq<char>, bool),
    TransferAdmin(Address),
    SetDeviationThreshold(u32),
    ResetReputation(Address),
    AddSigner(Address),
    RemoveSigner(Address),
    SetThreshold(u32),
    Pause,
    Unpause,
    Other,
}

impl View for ProposalAction {
    type V = ProposalActionView;

    open spec fn view(&self) -> ProposalActionView {
        match self {
            ProposalAction::AddSource(source, name) => ProposalActionView::AddSource(*source, name@),
            ProposalAction::RemoveSource(source) => ProposalActionView::RemoveSource(*source),
            ProposalAction::SetTrustedAsset(asset, trusted) => {
                ProposalActionView::SetTrustedAsset(asset@, *trusted)
            },
            ProposalAction::TransferAdmin(admin) => ProposalActionView::TransferAdmin(*admin),
            ProposalAction::SetDeviationThreshold(bps) => {
                ProposalActionView::SetDeviationThreshold(*bps)
            },
            ProposalAction::ResetReputation(source) => ProposalActionView::ResetReputation(*source),
            ProposalAction::AddSigner(signer) => ProposalActionView::AddSigner(*signer),
            ProposalAction::RemoveSigner(signer) => ProposalActionView::RemoveSigner(*signer),
            ProposalAction::SetThreshold(threshold) => ProposalActionView::SetThreshold(*threshold),
            ProposalAction::Pause => ProposalActionView::Pause,
            ProposalAction::Unpause => ProposalActionView::Unpause,
            ProposalAction::Other => ProposalActionView::Other,
        }
    }
}

impl Clone for ProposalAction {
    fn clone(&self) -> (copy: ProposalAction)
        ensures
            copy@ == self@,
    {
        match self {
            ProposalAction::AddSource(source, name) => {
                ProposalAction::AddSource(*source, name.clone())
            },
            ProposalAction::RemoveSource(source) => ProposalAction::RemoveSource(*source),
            ProposalAction::SetTrustedAsset(asset, trusted) => {
                ProposalAction::SetTrustedAsset(asset.clone(), *trusted)
            },
            ProposalAction::TransferAdmin(admin) => ProposalAction::TransferAdmin(*admin),
            ProposalAction::SetDeviationThreshold(bps) => {
                ProposalAction::SetDeviationThreshold(*bps)
            },
            ProposalAction::ResetReputation(source) => ProposalAction::ResetReputation(*source),
            ProposalAction::AddSigner(signer) => ProposalAction::AddSigner(*signer),
            ProposalAction::RemoveSigner(signer) => ProposalAction::RemoveSigner(*signer),
            ProposalAction::SetThreshold(threshold) => ProposalAction::SetThreshold(*threshold),
            ProposalAction::Pause => ProposalAction::Pause,
            ProposalAction::Unpause => ProposalAction::Unpause,
            ProposalAction::Other => ProposalAction::Other,
        }
    }
}

/// Who may decide on proposals, and how many of them it takes.
#[derive(Debug)]
pub struct MultiSigConfig {
    pub signers: AddressList,
    pub threshold: u32,
}

/// The model of a [`MultiSigConfig`].
#[verifier::ext_equal]
pub struct MultiSigConfigView {
    pub signers: Seq<Address>,
    pub threshold: u32,
}

impl View for MultiSigConfig {
    type V = MultiSigConfigView;

    open spec fn view(&self) -> MultiSigConfigView {
        MultiSigConfigView { signers: self.signers@, threshold: self.threshold }
    }
}

impl Clone for MultiSigConfig {
    fn clone(&self) -> (copy: MultiSigConfig)
        ensures
            copy@ == self@,
    {
        MultiSigConfig { signers: self.signers.clone(), threshold: self.threshold }
    }
}

/// A change that is put to the signers.
#[derive(Debug)]
pub struct MultiSigProposal {
    pub id: u32,
    pub action: ProposalAction,
    pub approvals: AddressList,
    /// 1 once the proposal was executed, 0 before.
    pub executed: u32,
    pub created_at: u64,
    pub proposer: Address,
}

/// The model of a [`MultiSigProposal`].
#[verifier::ext_equal]
pub struct MultiSigProposalView {
    pub id: u32,
    pub action: ProposalActionView,
    pub approvals: Seq<Address>,
    pub executed: u32,
    pub created_at: u64,
    pub proposer: Address,
}

impl View for MultiSigProposal {
    type V = MultiSigProposalView;

    open spec fn view(&self) -> MultiSigProposalView {
        MultiSigProposalView {
            id: self.id,
            action: self.action@,
            approvals: self.approvals@,
            executed: self.executed,
            created_at: self.created_at,
            proposer: self.proposer,
        }
    }
}

impl Clone for MultiSigProposal {
    fn clone(&self) -> (copy: MultiSigProposal)
        ensures
            copy@ == self@,
    {
        MultiSigProposal {
            id: self.id,
            action: self.action.clone(),
            approvals: self.approvals.clone(),
            executed: self.executed,
            created_at: self.created_at,
            proposer: self.proposer,
        }
    }
}

/// How far a storage entry's time to live is extended: once fewer than
/// `threshold` ledgers are left, to `extend_to` ledgers.
#[derive(Clone, Copy, Debug, PartialEq, Eq, Structural)]
pub struct TtlWindow {
    pub threshold: u32,
    pub extend_to: u32,
}

/// What the ledger does for the contract besides keeping its storage: events
/// that are published, tokens that move, storage whose rent is paid.
#[derive(Clone, Debug, PartialEq, Eq)]
pub enum Effect {
    /// Event `price_submitted`, with the asset and the source as topics.
    PriceSubmitted { asset: String, source: Address, price: i128, timestamp: u64 },
    /// Event `batch_submitted`, with the source as a topic.
    BatchSubmitted { source: Address, nonce: u64, root: Vec<u8> },
    /// Event `batch_entry_applied`, with the asset as a topic.
    BatchEntryApplied { asset: String, batch_nonce: u64, price: i128 },
    /// Event `governance_executed`, with the signer as a topic.
    GovernanceExecuted { signer: Address, proposal_id: u32 },
    /// Event `source_staked`, with the source as a topic.
    SourceStaked { source: Address, amount: i128 },
    /// Event `source_slashed`, with the source and the reason as topics.
    SourceSlashed { source: Address, reason: String, slashed: i128 },
    /// `amount` of `token` moves.
    Transfer { token: Address, from: Address, to: Address, amount: i128 },
    /// The instance storage is extended; without a window, by the standing one.
    ExtendInstanceTtl { window: Option<TtlWindow> },
    /// The history of an asset is extended; without a window, by the standing one.
    ExtendHistoryTtl { asset: String, window: Option<TtlWindow> },
}

/// The model of an [`Effect`].
#[verifier::ext_equal]
pub enum EffectView {
    PriceSubmitted { asset: Seq<char>, source: Address, price: i128, timestamp: u64 },
    BatchSubmitted { source: Address, nonce: u64, root: Seq<u8> },
    BatchEntryApplied { asset: Seq<char>, batch_nonce: u64, price: i128 },
    GovernanceExecuted { signer: Address, proposal_id: u32 },
    SourceStaked { source: Address, amount: i128 },
    SourceSlashed { source: Address, reason: Seq<char>, slashed: i128 },
    Transfer { token: Address, from: Address, to: Address, amount: i128 },
    ExtendInstanceTtl { window: Option<TtlWindow> },
    ExtendHistoryTtl { asset: Seq<char>, window: Option<TtlWindow> },
}

impl View for Effect {
    type V = EffectView;

    open spec fn view(&self) -> EffectView {
        match self {
            Effect::PriceSubmitted { asset, source, price, timestamp } => {
                EffectView::PriceSubmitted {
                    asset: asset@,
                    source: *source,
                    price: *price,
                    timestamp: *timestamp,
                }
            },
            Effect::BatchSubmitted { source, nonce, root } => {
                EffectView::BatchSubmitted { source: *source, nonce: *nonce, root: root@ }
            },
            Effect::BatchEntryApplied { asset, batch_nonce, price } => {
                EffectView::BatchEntryApplied {
                    asset: asset@,
                    batch_nonce: *batch_nonce,
                    price: *price,
                }
            },
            Effect::GovernanceExecuted { signer, proposal_id } => {
                EffectView::GovernanceExecuted { signer: *signer, proposal_id: *proposal_id }
            },
            Effect::SourceStaked { source, amount } => {
                EffectView::SourceStaked { source: *source, amount: *amount }
            },
            Effect::SourceSlashed { source, reason, slashed } => {
                EffectView::SourceSlashed { source: *source, reason: reason@, slashed: *slashed }
            },
            Effect::Transfer { token, from, to, amount } => {
                EffectView::Transfer { token: *token, from: *from, to: *to, amount: *amount }
            },
            Effect::ExtendInstanceTtl { window } => {
                EffectView::ExtendInstanceTtl { window: *window }
            },
            Effect::ExtendHistoryTtl { asset, window } => {
                EffectView::ExtendHistoryTtl { asset: asset@, window: *window }
            },
        }
    }
}

} // verus!
