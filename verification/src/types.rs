//! The records that the ledger stores.
//!
//! Identifiers of requests, bids and proofs are opaque 128-bit numbers. Points in
//! time are milliseconds since the Unix epoch and spans of time are milliseconds.
//! Fractional quantities are exact [`Ratio`]s; a reputation or success rate is the
//! share itself (between zero and one), which reads as a percentage when
//! multiplied by one hundred.

use crate::ratio::Ratio;
use crate::text::same_text;
use std::collections::HashMap;
use vstd::prelude::*;

verus! {

/// The longest completion estimate that a bid may carry: one hour.
pub const MAX_ESTIMATED_TIME: u64 = 3_600_000;

/// How urgently a requester wants the proof.
#[derive(Clone, Copy, Debug, PartialEq, Eq, Structural)]
pub enum Priority {
    Low,
    Normal,
    High,
    Urgent,
}

/// Where a request stands in its lifecycle.
#[derive(Clone, Copy, Debug, PartialEq, Eq, Structural)]
pub enum RequestStatus {
    Pending,
    InProgress,
    Completed,
    Failed,
    Cancelled,
    Expired,
}

/// Where a bid stands.
#[derive(Clone, Copy, Debug, PartialEq, Eq, Structural)]
pub enum BidStatus {
    Active,
    Accepted,
    Rejected,
    Expired,
    Withdrawn,
}

/// How a prover charges for its work.
#[derive(Clone, Copy, Debug, PartialEq, Eq, Structural)]
pub enum PricingType {
    Fixed,
    PerCycle,
    PerMB,
    Hybrid,
    Dynamic,
}

/// A unit of work that needs a proof, posted with a price ceiling and a deadline.
#[derive(Clone, Debug)]
pub struct ProofRequest {
    pub id: u128,
    pub requester_id: String,
    pub program_hash: String,
    pub input_data: Vec<u8>,
    pub backend: String,
    pub max_price: u64,
    pub deadline: u64,
    pub priority: Priority,
    pub status: RequestStatus,
    pub created_at: u64,
    pub metadata: HashMap<String, String>,
}

/// A prover's offer to fulfil one request at a stated price and time estimate.
#[derive(Clone, Debug)]
pub struct Bid {
    pub id: u128,
    pub request_id: u128,
    pub prover_id: String,
    pub price: u64,
    pub estimated_time: u64,
    pub submitted_at: u64,
    pub status: BidStatus,
}

/// A proof submitted for a request, with the cost of producing it.
#[derive(Clone, Debug)]
pub struct ProofResponse {
    pub id: u128,
    pub request_id: u128,
    pub prover_id: String,
    pub proof_data: Vec<u8>,
    pub public_inputs: Vec<u64>,
    pub generation_time: u64,
    pub cycles: u64,
    pub memory_usage: u64,
    pub proof_size: usize,
    pub price: u64,
    pub submitted_at: u64,
    pub verified: bool,
}

/// The prices a prover asks.
#[derive(Clone, Debug)]
pub struct PricingModel {
    pub model_type: PricingType,
    pub base_price: u64,
    pub per_cycle_price: u64,
    pub per_mb_price: u64,
    pub priority_multiplier: HashMap<String, Ratio>,
    pub backend_multiplier: HashMap<String, Ratio>,
}

/// What a prover reports about its own performance.
#[derive(Clone, Debug)]
pub struct PerformanceStats {
    pub average_generation_time: u64,
    pub average_verification_time: u64,
    pub success_rate: Ratio,
    pub throughput: Ratio,
    pub max_concurrent_requests: usize,
    pub current_load: Ratio,
    pub uptime_percentage: Ratio,
}

/// A registered prover.
#[derive(Clone, Debug)]
pub struct ProverProfile {
    pub id: String,
    pub name: String,
    pub description: String,
    pub supported_backends: Vec<String>,
    pub supported_programs: Vec<String>,
    pub pricing: PricingModel,
    pub performance_stats: PerformanceStats,
    pub reputation_score: Ratio,
    pub total_proofs: u64,
    pub successful_proofs: u64,
    pub average_generation_time: u64,
    pub uptime: Ratio,
    pub created_at: u64,
    pub verified: bool,
}

/// The outcome of checking one submitted proof.
#[derive(Clone, Debug)]
pub struct VerificationResult {
    pub proof_id: u128,
    pub valid: bool,
    pub verification_time: u64,
    pub verifier_id: String,
    pub verified_at: u64,
    pub error_message: Option<String>,
}

/// Aggregate figures over the whole marketplace.
#[derive(Clone, Copy, Debug)]
pub struct MarketplaceStats {
    pub total_requests: u64,
    pub total_proofs_generated: u64,
    pub active_provers: usize,
    pub average_proof_time: u64,
    pub average_price: u64,
    pub total_volume: u64,
    pub success_rate: Ratio,
    pub last_updated: u64,
}

impl ProverProfile {
    /// Whether the prover lists `backend` among the backends it supports.
    pub open spec fn supports(self, backend: Seq<char>) -> bool {
        exists|k: int| 0 <= k < self.supported_backends@.len() && #[trigger] self.supported_backends@[k]@ == backend
    }

    /// Whether the prover lists `backend` among the backends it supports.
    pub fn supports_backend(&self, backend: &str) -> (r: bool)
        ensures
            r == self.supports(backend@),
    {
        let mut k: usize = 0;
        while k < self.supported_backends.len()
            invariant
                k <= self.supported_backends@.len(),
                forall|j: int| 0 <= j < k ==> #[trigger] self.supported_backends@[j]@ != backend@,
            decreases self.supported_backends@.len() - k,
        {
            if same_text(self.supported_backends[k].as_str(), backend) {
                return true;
            }
            k += 1;
        }
        false
    }
}

} // verus!
