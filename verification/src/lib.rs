//! A price oracle for a ledger: registered sources submit prices one by one or
//! as committed batches, an administrator and a group of signers configure it,
//! and anybody can query it.
//!
//! [`PriceOracleContract`] has the entry points. They work on an [`OracleEnv`],
//! which holds the contract's storage, what the contract sees of the ledger, and
//! what it asks of it. The module [`model`] says in mathematical terms what the
//! contract stores and what each call does, [`calls`] collects the calls, and
//! [`outcomes`] and [`laws`] state and prove what each call and each query does,
//! and what holds of the contract as a whole.

pub mod address;
pub mod calls;
pub mod contract;
pub mod env;
pub mod errors;
pub mod history;
pub mod host;
pub mod laws;
pub mod model;
pub mod outcomes;
pub mod storage;
pub mod table;
pub mod types;
pub mod usd;

pub use address::{vec_contains_address, Address, AddressList};
pub use contract::{apply_proposal_action, PriceOracleContract, API_VERSION};
pub use env::OracleEnv;
pub use errors::OracleError;
pub use history::PriceLog;
pub use storage::Storage;
pub use table::Table;
pub use types::{
    AssetPrice, BatchPriceEntry, Effect, MerkleProof, MultiSigConfig, MultiSigProposal,
    PriceDataPoint, PricePoint, ProposalAction, SourceReputation, TtlWindow,
};
pub use usd::{calculate_usd_price, usd_price_fits};
