//! Why an entry point refuses a call.

use vstd::prelude::*;

verus! {

/// The reasons for which an entry point refuses a call. A refused call leaves
/// the contract as it was.
#[derive(Clone, Copy, Debug, PartialEq, Eq, Structural)]
pub enum OracleError {
    /// An administrator is already set.
    AlreadyInitialized,
    /// The caller is not the administrator.
    Unauthorized,
    /// The emergency pause is on.
    ContractPaused,
    /// The submitter is not a registered source.
    UnauthorizedSource,
    /// The price is negative.
    InvalidPrice,
    /// The price is too far from the previous one.
    PriceDeviationTooLarge,
    /// The batch root is not 32 bytes long, or the inclusion proof does not hold.
    InvalidMerkleProof,
    /// The batch nonce is not the next one.
    BatchNonceMismatch,
    /// No batch was committed under the nonce.
    BatchRootNotFound,
    /// The leaf of the batch was applied before.
    BatchEntryAlreadyApplied,
    /// The approval threshold is zero or more than the number of signers.
    InvalidThreshold,
    /// No multi-signature configuration is set.
    MultiSigNotInitialized,
    /// The caller is not one of the signers.
    NotASigner,
    /// There is no such proposal.
    ProposalNotFound,
    /// The proposal was executed before.
    ProposalAlreadyExecuted,
    /// The signer approved the proposal before.
    AlreadyApproved,
    /// The proposal has fewer approvals than the threshold.
    ThresholdNotMet,
}

} // verus!
