//! A marketplace ledger that matches requests for proofs with the provers who bid
//! to generate them, and the small helper libraries that ship beside it.
//!
//! The ledger is the heart of the crate: [`PicoProofMarketplace`] admits requests,
//! collects bids, finalises a winner, records proofs and verification outcomes,
//! and keeps prover reputation and aggregate statistics. Every operation is
//! specified as a transition of the mathematical [`Ledger`] that the marketplace
//! is viewed as, and the laws of that state machine are proved in `laws`.

pub mod backend;
pub mod cli_extensions;
pub mod debugger;
pub mod error;
pub mod evm;
pub mod export;
pub mod laws;
pub mod ledger;
pub mod lookup;
pub mod marketplace;
pub mod monitoring;
pub mod ranking;
pub mod ratio;
pub mod testing;
pub mod text;
pub mod types;

pub use error::MarketError;
pub use export::ExportFormat;
pub use ledger::Ledger;
pub use marketplace::PicoProofMarketplace;
pub use ratio::Ratio;
pub use types::{
    Bid, BidStatus, MarketplaceStats, PerformanceStats, PricingModel, PricingType, Priority,
    ProofRequest, ProofResponse, ProverProfile, RequestStatus, VerificationResult,
};
