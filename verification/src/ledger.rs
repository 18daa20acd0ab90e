//! The mathematical model of the marketplace.
//!
//! A [`Ledger`] is the state of the marketplace as plain sequences of records, in
//! the order in which they were first stored. Each operation of the marketplace
//! is given here twice: as the error with which it is rejected, if any, and as
//! the ledger that it leaves behind when it is accepted. The executable
//! marketplace promises to follow these functions exactly.

use crate::error::MarketError;
use crate::lookup::{first_hit, put};
use crate::ranking::{bid_order, prover_order, ranked, top};
use crate::ratio::Ratio;
use crate::types::{
    Bid, BidStatus, MarketplaceStats, ProofRequest, ProofResponse, ProverProfile, RequestStatus,
    VerificationResult, MAX_ESTIMATED_TIME,
};
use vstd::prelude::*;

verus! {

/// The requests with the id `id`.
pub open spec fn request_with(id: u128) -> spec_fn(ProofRequest) -> bool {
    |r: ProofRequest| r.id == id
}

/// The provers with the id `id`.
pub open spec fn prover_with(id: Seq<char>) -> spec_fn(ProverProfile) -> bool {
    |p: ProverProfile| p.id@ == id
}

/// The responses with the id `id`.
pub open spec fn response_with(id: u128) -> spec_fn(ProofResponse) -> bool {
    |r: ProofResponse| r.id == id
}

/// The responses to the request `request_id`.
pub open spec fn response_to(request_id: u128) -> spec_fn(ProofResponse) -> bool {
    |r: ProofResponse| r.request_id == request_id
}

/// The verification outcomes of the proof `proof_id`.
pub open spec fn verification_of(proof_id: u128) -> spec_fn(VerificationResult) -> bool {
    |v: VerificationResult| v.proof_id == proof_id
}

/// The bids on the request `request_id`.
pub open spec fn bid_on(request_id: u128) -> spec_fn(Bid) -> bool {
    |b: Bid| b.request_id == request_id
}

/// The bids with the id `bid_id` on the request `request_id`.
pub open spec fn bid_with(request_id: u128, bid_id: u128) -> spec_fn(Bid) -> bool {
    |b: Bid| b.request_id == request_id && b.id == bid_id
}

/// The requests that are pending.
pub open spec fn is_pending() -> spec_fn(ProofRequest) -> bool {
    |r: ProofRequest| r.status == RequestStatus::Pending
}

/// Whether `prover` passes every filter that is given.
pub open spec fn matches_search(
    prover: ProverProfile,
    backend: Option<Seq<char>>,
    max_price: Option<u64>,
    min_reputation: Option<Ratio>,
) -> bool {
    &&& backend matches Some(b) ==> prover.supports(b)
    &&& max_price matches Some(price) ==> prover.pricing.base_price <= price
    &&& min_reputation matches Some(r) ==> r.le(prover.reputation_score)
}

/// The provers that pass every filter that is given.
pub open spec fn search_filter(
    backend: Option<Seq<char>>,
    max_price: Option<u64>,
    min_reputation: Option<Ratio>,
) -> spec_fn(ProverProfile) -> bool {
    |p: ProverProfile| matches_search(p, backend, max_price, min_reputation)
}

/// The sum of the generation times of `responses`.
pub open spec fn total_generation_time(responses: Seq<ProofResponse>) -> nat
    decreases responses.len(),
{
    if responses.len() == 0 {
        0
    } else {
        total_generation_time(responses.drop_last()) + responses.last().generation_time as nat
    }
}

/// The sum of the prices of `responses`.
pub open spec fn total_price(responses: Seq<ProofResponse>) -> nat
    decreases responses.len(),
{
    if responses.len() == 0 {
        0
    } else {
        total_price(responses.drop_last()) + responses.last().price as nat
    }
}

/// How many of `responses` are marked verified.
pub open spec fn verified_count(responses: Seq<ProofResponse>) -> nat
    decreases responses.len(),
{
    if responses.len() == 0 {
        0
    } else {
        verified_count(responses.drop_last()) + if responses.last().verified {
            1nat
        } else {
            0nat
        }
    }
}

/// The reputation that follows from a prover's counters: the share of its proofs
/// that succeeded, and zero for a prover without proofs.
pub open spec fn reputation_of(successful_proofs: u64, total_proofs: u64) -> Ratio {
    Ratio { numerator: successful_proofs, denominator: total_proofs }
}

/// A prover after one more proof was recorded for it.
pub open spec fn credited(prover: ProverProfile) -> ProverProfile {
    let total = (prover.total_proofs + 1) as u64;
    let successful = (prover.successful_proofs + 1) as u64;
    ProverProfile {
        total_proofs: total,
        successful_proofs: successful,
        reputation_score: reputation_of(successful, total),
        ..prover
    }
}

/// A prover after one of its proofs was checked with outcome `valid`.
pub open spec fn assessed(prover: ProverProfile, valid: bool) -> ProverProfile {
    let successful = if valid || prover.successful_proofs == 0 {
        prover.successful_proofs
    } else {
        (prover.successful_proofs - 1) as u64
    };
    ProverProfile {
        successful_proofs: successful,
        reputation_score: reputation_of(successful, prover.total_proofs),
        ..prover
    }
}

/// The state of the marketplace.
pub struct Ledger {
    pub requests: Seq<ProofRequest>,
    pub bids: Seq<Bid>,
    pub responses: Seq<ProofResponse>,
    pub provers: Seq<ProverProfile>,
    pub verifications: Seq<VerificationResult>,
    pub stats: MarketplaceStats,
}

impl Ledger {
    /// The ledger of a marketplace opened at time `now`.
    pub open spec fn empty(now: u64) -> Ledger {
        Ledger {
            requests: Seq::empty(),
            bids: Seq::empty(),
            responses: Seq::empty(),
            provers: Seq::empty(),
            verifications: Seq::empty(),
            stats: MarketplaceStats {
                total_requests: 0,
                total_proofs_generated: 0,
                active_provers: 0,
                average_proof_time: 0,
                average_price: 0,
                total_volume: 0,
                success_rate: Ratio { numerator: 0, denominator: 1 },
                last_updated: now,
            },
        }
    }

    // ----- looking records up -----

    /// Where the request `id` is stored.
    pub open spec fn request_index(self, id: u128) -> Option<int> {
        first_hit(self.requests, request_with(id))
    }

    /// Where the prover `id` is stored.
    pub open spec fn prover_index(self, id: Seq<char>) -> Option<int> {
        first_hit(self.provers, prover_with(id))
    }

    /// Where the response `id` is stored.
    pub open spec fn response_index(self, id: u128) -> Option<int> {
        first_hit(self.responses, response_with(id))
    }

    /// Where the verification outcome of the proof `proof_id` is stored.
    pub open spec fn verification_index(self, proof_id: u128) -> Option<int> {
        first_hit(self.verifications, verification_of(proof_id))
    }

    /// Where the first bid `bid_id` on the request `request_id` is stored.
    pub open spec fn bid_index(self, request_id: u128, bid_id: u128) -> Option<int> {
        first_hit(self.bids, bid_with(request_id, bid_id))
    }

    /// Where the first response to the request `request_id` is stored.
    pub open spec fn proof_index(self, request_id: u128) -> Option<int> {
        first_hit(self.responses, response_to(request_id))
    }

    /// The status of the request `id`, if the ledger holds it.
    pub open spec fn status_of(self, id: u128) -> Option<RequestStatus> {
        match self.request_index(id) {
            Some(i) => Some(self.requests[i].status),
            None => None,
        }
    }

    /// The profile of the prover `id`, if it is registered.
    pub open spec fn prover(self, id: Seq<char>) -> Option<ProverProfile> {
        match self.prover_index(id) {
            Some(i) => Some(self.provers[i]),
            None => None,
        }
    }

    /// Whether some registered prover supports `backend`.
    pub open spec fn has_eligible_prover(self, backend: Seq<char>) -> bool {
        exists|i: int| 0 <= i < self.provers.len() && (#[trigger] self.provers[i]).supports(backend)
    }

    /// The bids on the request `request_id`, in the order in which they came.
    pub open spec fn bids_on(self, request_id: u128) -> Seq<Bid> {
        self.bids.filter(bid_on(request_id))
    }

    /// The responses to the request `request_id`.
    pub open spec fn responses_to(self, request_id: u128) -> Seq<ProofResponse> {
        self.responses.filter(response_to(request_id))
    }

    /// The requests that still wait for a bid to be accepted.
    pub open spec fn pending_requests(self) -> Seq<ProofRequest> {
        self.requests.filter(is_pending())
    }

    /// The first response to the request `request_id`, if there is one.
    pub open spec fn proof_for(self, request_id: u128) -> Option<ProofResponse> {
        match self.proof_index(request_id) {
            Some(i) => Some(self.responses[i]),
            None => None,
        }
    }

    /// The `count` best bids on the request `request_id`, cheapest first and, among
    /// bids of one price, quickest first.
    pub open spec fn best_bids(self, request_id: u128, count: nat) -> Seq<Bid> {
        top(ranked(self.bids_on(request_id), bid_order()), count)
    }

    /// The provers by falling reputation and, among provers of one reputation, by
    /// falling count of successful proofs.
    pub open spec fn prover_rankings(self) -> Seq<ProverProfile> {
        ranked(self.provers, prover_order())
    }

    /// The ledger with the status of the request stored at `i` set to `status`.
    pub open spec fn with_status(self, i: int, status: RequestStatus) -> Ledger {
        Ledger {
            requests: self.requests.update(i, ProofRequest { status, ..self.requests[i] }),
            ..self
        }
    }

    /// The statistics after the averages were recomputed at time `now`. Without
    /// responses only the time of the last update changes.
    pub open spec fn refreshed_stats(self, now: u64) -> MarketplaceStats {
        let n = self.responses.len();
        if n == 0 {
            MarketplaceStats { last_updated: now, ..self.stats }
        } else {
            MarketplaceStats {
                average_proof_time: (total_generation_time(self.responses) / n) as u64,
                average_price: (total_price(self.responses) / n) as u64,
                success_rate: Ratio {
                    numerator: verified_count(self.responses) as u64,
                    denominator: n as u64,
                },
                last_updated: now,
                ..self.stats
            }
        }
    }

    /// The ledger with its statistics recomputed at time `now`.
    pub open spec fn refreshed(self, now: u64) -> Ledger {
        Ledger { stats: self.refreshed_stats(now), ..self }
    }

    // ----- registering provers -----

    /// Why the registration of `profile` is rejected, if it is.
    pub open spec fn register_prover_error(self, profile: ProverProfile) -> Option<MarketError> {
        if self.prover_index(profile.id@) is Some {
            Some(MarketError::AlreadyRegistered)
        } else if profile.supported_backends@.len() == 0 {
            Some(MarketError::NoBackends)
        } else {
            None
        }
    }

    /// The ledger after `profile` was registered.
    pub open spec fn register_prover(self, profile: ProverProfile) -> Ledger {
        let provers = self.provers.push(profile);
        Ledger {
            provers,
            stats: MarketplaceStats { active_provers: provers.len() as usize, ..self.stats },
            ..self
        }
    }

    // ----- the lifecycle of requests -----

    /// Why the submission of `request` at time `now` is rejected, if it is.
    pub open spec fn submit_request_error(self, request: ProofRequest, now: u64) -> Option<
        MarketError,
    > {
        if request.deadline <= now {
            Some(MarketError::InvalidDeadline)
        } else if request.input_data@.len() == 0 {
            Some(MarketError::EmptyInput)
        } else if !self.has_eligible_prover(request.backend@) {
            Some(MarketError::NoEligibleProver)
        } else {
            None
        }
    }

    /// The ledger after `request` was admitted at time `now`: the request is stored
    /// as pending, in the place of an earlier request of the same id if there is one.
    pub open spec fn submit_request(self, request: ProofRequest, now: u64) -> Ledger {
        let stored = ProofRequest { status: RequestStatus::Pending, ..request };
        Ledger {
            requests: put(self.requests, self.request_index(request.id), stored),
            stats: MarketplaceStats {
                total_requests: (self.stats.total_requests + 1) as u64,
                last_updated: now,
                ..self.stats
            },
            ..self
        }
    }

    /// Why the cancellation of the request `request_id` by `requester_id` is
    /// rejected, if it is.
    pub open spec fn cancel_request_error(
        self,
        request_id: u128,
        requester_id: Seq<char>,
    ) -> Option<MarketError> {
        match self.request_index(request_id) {
            None => Some(MarketError::NotFound),
            Some(i) => {
                let request = self.requests[i];
                if request.requester_id@ != requester_id {
                    Some(MarketError::Unauthorized)
                } else if request.status != RequestStatus::Pending && request.status
                    != RequestStatus::InProgress {
                    Some(MarketError::InvalidState)
                } else {
                    None
                }
            },
        }
    }

    /// The ledger after the request `request_id` was cancelled.
    pub open spec fn cancel_request(self, request_id: u128) -> Ledger {
        self.with_status(self.request_index(request_id).unwrap(), RequestStatus::Cancelled)
    }

    // ----- the auction -----

    /// Why `bid` is rejected, if it is.
    pub open spec fn submit_bid_error(self, bid: Bid) -> Option<MarketError> {
        match self.status_of(bid.request_id) {
            None => Some(MarketError::NotFound),
            Some(status) => {
                if status != RequestStatus::Pending {
                    Some(MarketError::RequestClosed)
                } else if bid.estimated_time > MAX_ESTIMATED_TIME {
                    Some(MarketError::EstimateTooLong)
                } else {
                    None
                }
            },
        }
    }

    /// The ledger after `bid` was taken: it is appended as an active bid.
    pub open spec fn submit_bid(self, bid: Bid) -> Ledger {
        Ledger { bids: self.bids.push(Bid { status: BidStatus::Active, ..bid }), ..self }
    }

    /// Why accepting the bid `bid_id` on the request `request_id` is rejected, if
    /// it is.
    pub open spec fn accept_bid_error(self, request_id: u128, bid_id: u128) -> Option<
        MarketError,
    > {
        match self.status_of(request_id) {
            None => Some(MarketError::NotFound),
            Some(status) => {
                if status != RequestStatus::Pending {
                    Some(MarketError::RequestClosed)
                } else if self.bid_index(request_id, bid_id) is None {
                    Some(MarketError::NotFound)
                } else {
                    None
                }
            },
        }
    }

    /// What becomes of the bid stored at `k` when the bid stored at `winner` is
    /// accepted on the request `request_id`.
    pub open spec fn settled_bid(self, request_id: u128, winner: int, k: int) -> Bid {
        let bid = self.bids[k];
        if bid.request_id != request_id {
            bid
        } else if k == winner {
            Bid { status: BidStatus::Accepted, ..bid }
        } else {
            Bid { status: BidStatus::Rejected, ..bid }
        }
    }

    /// The ledger after the bid `bid_id` was accepted on the request `request_id`:
    /// that bid is accepted, every other bid on the request is rejected, and the
    /// request is in progress.
    pub open spec fn accept_bid(self, request_id: u128, bid_id: u128) -> Ledger {
        let winner = self.bid_index(request_id, bid_id).unwrap();
        let opened = self.with_status(
            self.request_index(request_id).unwrap(),
            RequestStatus::InProgress,
        );
        Ledger {
            bids: Seq::new(self.bids.len(), |k: int| self.settled_bid(request_id, winner, k)),
            ..opened
        }
    }

    // ----- settlement -----

    /// Why `response` is rejected, if it is.
    pub open spec fn submit_proof_error(self, response: ProofResponse) -> Option<MarketError> {
        match self.status_of(response.request_id) {
            None => Some(MarketError::NotFound),
            Some(status) => {
                if status != RequestStatus::InProgress {
                    Some(MarketError::RequestNotInProgress)
                } else if response.proof_data@.len() == 0 {
                    Some(MarketError::EmptyProof)
                } else {
                    None
                }
            },
        }
    }

    /// Whether the counters that recording `response` increments have room for it.
    pub open spec fn has_room_for(self, response: ProofResponse) -> bool {
        &&& self.stats.total_proofs_generated < u64::MAX
        &&& self.stats.total_volume + response.price <= u64::MAX
        &&& match self.prover(response.prover_id@) {
            Some(p) => p.total_proofs < u64::MAX && p.successful_proofs < u64::MAX,
            None => true,
        }
    }

    /// The provers after the one named `id`, if it is registered, was changed by
    /// `change`.
    pub open spec fn provers_with(
        self,
        id: Seq<char>,
        change: spec_fn(ProverProfile) -> ProverProfile,
    ) -> Seq<ProverProfile> {
        match self.prover_index(id) {
            Some(i) => self.provers.update(i, change(self.provers[i])),
            None => self.provers,
        }
    }

    /// The ledger after `response` was recorded at time `now`: the response is
    /// stored unverified, the request is completed, the counters of the
    /// marketplace and of the prover are advanced, and the reputation and the
    /// statistics are recomputed.
    pub open spec fn submit_proof(self, response: ProofResponse, now: u64) -> Ledger {
        let stored = ProofResponse { verified: false, ..response };
        let completed = self.with_status(
            self.request_index(response.request_id).unwrap(),
            RequestStatus::Completed,
        );
        Ledger {
            responses: put(self.responses, self.response_index(response.id), stored),
            provers: self.provers_with(response.prover_id@, |p: ProverProfile| credited(p)),
            stats: MarketplaceStats {
                total_proofs_generated: (self.stats.total_proofs_generated + 1) as u64,
                total_volume: (self.stats.total_volume + response.price) as u64,
                ..self.stats
            },
            ..completed
        }.refreshed(now)
    }

    /// Why the verification outcome for the proof `proof_id` is rejected, if it is.
    pub open spec fn verify_proof_error(self, proof_id: u128) -> Option<MarketError> {
        if self.response_index(proof_id) is None {
            Some(MarketError::NotFound)
        } else {
            None
        }
    }

    /// The ledger after the outcome `result` was applied to the proof `proof_id`
    /// at time `now`: the response carries the outcome, the outcome is filed under
    /// the proof, the prover loses a success if the proof was invalid, and the
    /// reputation and the statistics are recomputed.
    pub open spec fn verify_proof(self, proof_id: u128, result: VerificationResult, now: u64) -> Ledger {
        let i = self.response_index(proof_id).unwrap();
        let response = self.responses[i];
        let filed = VerificationResult { proof_id, ..result };
        Ledger {
            responses: self.responses.update(
                i,
                ProofResponse { verified: result.valid, ..response },
            ),
            verifications: put(self.verifications, self.verification_index(proof_id), filed),
            provers: self.provers_with(
                response.prover_id@,
                |p: ProverProfile| assessed(p, result.valid),
            ),
            ..self
        }.refreshed(now)
    }

    // ----- searching provers -----

    /// The provers that pass every filter that is given, in the order in which
    /// they registered.
    pub open spec fn search(
        self,
        backend: Option<Seq<char>>,
        max_price: Option<u64>,
        min_reputation: Option<Ratio>,
    ) -> Seq<ProverProfile> {
        self.provers.filter(search_filter(backend, max_price, min_reputation))
    }
}

/// An operation that changes the marketplace, with its arguments.
pub enum Operation {
    RegisterProver { profile: ProverProfile },
    SubmitRequest { request: ProofRequest, now: u64 },
    CancelRequest { request_id: u128, requester_id: Seq<char> },
    SubmitBid { bid: Bid },
    AcceptBid { request_id: u128, bid_id: u128 },
    SubmitProof { response: ProofResponse, now: u64 },
    VerifyProof { proof_id: u128, result: VerificationResult, now: u64 },
}

impl Ledger {
    /// Why the operation `op` is rejected, if it is.
    pub open spec fn rejection(self, op: Operation) -> Option<MarketError> {
        match op {
            Operation::RegisterProver { profile } => self.register_prover_error(profile),
            Operation::SubmitRequest { request, now } => self.submit_request_error(request, now),
            Operation::CancelRequest { request_id, requester_id } => self.cancel_request_error(
                request_id,
                requester_id,
            ),
            Operation::SubmitBid { bid } => self.submit_bid_error(bid),
            Operation::AcceptBid { request_id, bid_id } => self.accept_bid_error(request_id, bid_id),
            Operation::SubmitProof { response, now } => self.submit_proof_error(response),
            Operation::VerifyProof { proof_id, result, now } => self.verify_proof_error(proof_id),
        }
    }

    /// The ledger after the operation `op` was applied.
    pub open spec fn apply(self, op: Operation) -> Ledger {
        match op {
            Operation::RegisterProver { profile } => self.register_prover(profile),
            Operation::SubmitRequest { request, now } => self.submit_request(request, now),
            Operation::CancelRequest { request_id, requester_id } => self.cancel_request(request_id),
            Operation::SubmitBid { bid } => self.submit_bid(bid),
            Operation::AcceptBid { request_id, bid_id } => self.accept_bid(request_id, bid_id),
            Operation::SubmitProof { response, now } => self.submit_proof(response, now),
            Operation::VerifyProof { proof_id, result, now } => self.verify_proof(
                proof_id,
                result,
                now,
            ),
        }
    }

    /// The ledger after the operation `op` was attempted: applied where it is
    /// accepted, and unchanged where it is rejected.
    pub open spec fn step(self, op: Operation) -> Ledger {
        if self.rejection(op) is None {
            self.apply(op)
        } else {
            self
        }
    }

    /// The ledger after the operations `ops` were attempted one after the other.
    pub open spec fn run(self, ops: Seq<Operation>) -> Ledger
        decreases ops.len(),
    {
        if ops.len() == 0 {
            self
        } else {
            self.run(ops.drop_last()).step(ops.last())
        }
    }

    /// Whether nothing is stored twice: no two requests, provers, responses or
    /// verification outcomes share their key, and the count of active provers is
    /// the number of provers.
    pub open spec fn wf(self) -> bool {
        &&& forall|i: int, j: int|
            0 <= i < j < self.requests.len() ==> self.requests[i].id != self.requests[j].id
        &&& forall|i: int, j: int|
            0 <= i < j < self.provers.len() ==> self.provers[i].id@ != self.provers[j].id@
        &&& forall|i: int, j: int|
            0 <= i < j < self.responses.len() ==> self.responses[i].id != self.responses[j].id
        &&& forall|i: int, j: int|
            0 <= i < j < self.verifications.len() ==> self.verifications[i].proof_id
                != self.verifications[j].proof_id
        &&& self.stats.active_provers == self.provers.len()
    }
}

} // verus!
