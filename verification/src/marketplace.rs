//! The executable marketplace.
//!
//! [`PicoProofMarketplace`] owns the records of the marketplace and is viewed as
//! a [`Ledger`]. Each operation either applies the transition that the ledger
//! defines for it, or is rejected with the error that the ledger names and leaves
//! the marketplace as it was, so that no operation is ever seen half applied.
//! The time of an operation is handed in by the caller, in milliseconds since
//! the Unix epoch. Operations that change the marketplace take it by exclusive
//! reference; callers that share a marketplace among threads keep it behind a
//! lock of their own.

use crate::error::MarketError;
use crate::export::{csv_table, write_csv};
use crate::laws::step_keeps_well_formed;
use crate::ledger::{
    assessed, bid_on, bid_with, credited, is_pending,
    prover_with, request_with, response_to, response_with, search_filter, total_generation_time,
    total_price, verification_of, verified_count, Ledger, Operation,
};
use crate::lookup::{first_hit_found, first_hit_missing};
use crate::ranking::{
    bid_order, bid_precedes, prover_order, prover_precedes, rank_position, ranked,
};
use crate::ratio::Ratio;
use crate::text::same_text;
use crate::types::{
    Bid, BidStatus, MarketplaceStats, ProofRequest, ProofResponse, ProverProfile, RequestStatus,
    VerificationResult, MAX_ESTIMATED_TIME,
};
use vstd::prelude::*;

verus! {

/// The marketplace: requests, the bids on them, the proofs submitted for them, the
/// registered provers, the verification outcomes, and the aggregate statistics.
pub struct PicoProofMarketplace {
    requests: Vec<ProofRequest>,
    bids: Vec<Bid>,
    responses: Vec<ProofResponse>,
    provers: Vec<ProverProfile>,
    verifications: Vec<VerificationResult>,
    stats: MarketplaceStats,
}

impl View for PicoProofMarketplace {
    type V = Ledger;

    closed spec fn view(&self) -> Ledger {
        Ledger {
            requests: self.requests@,
            bids: self.bids@,
            responses: self.responses@,
            provers: self.provers@,
            verifications: self.verifications@,
            stats: self.stats,
        }
    }
}

/// `found` as a position in a sequence.
pub open spec fn as_position(found: Option<usize>) -> Option<int> {
    match found {
        Some(i) => Some(i as int),
        None => None,
    }
}

/// The text that an optional string slice holds.
pub open spec fn text_of(text: Option<&str>) -> Option<Seq<char>> {
    match text {
        Some(t) => Some(t@),
        None => None,
    }
}

/// A prover paired with its id.
pub open spec fn with_id() -> spec_fn(ProverProfile) -> (String, ProverProfile) {
    |p: ProverProfile| (p.id, p)
}

/// The bids on the request `request_id` among the first `k` of `bids`.
spec fn seen_bids(bids: Seq<Bid>, k: int, request_id: u128) -> Seq<Bid> {
    bids.take(k).filter(bid_on(request_id))
}

fn bid_ranks_before(a: &Bid, b: &Bid) -> (r: bool)
    ensures
        r == bid_precedes(*a, *b),
{
    a.price < b.price || (a.price == b.price && a.estimated_time < b.estimated_time)
}

fn prover_ranks_before(a: &ProverProfile, b: &ProverProfile) -> (r: bool)
    ensures
        r == prover_precedes(*a, *b),
{
    b.reputation_score.is_less_than(&a.reputation_score) || (b.reputation_score.has_same_value(
        &a.reputation_score,
    ) && b.successful_proofs < a.successful_proofs)
}

impl PicoProofMarketplace {
    /// An empty marketplace, opened at time `now`.
    pub fn new(now: u64) -> (market: PicoProofMarketplace)
        ensures
            market@ == Ledger::empty(now),
            market@.wf(),
    {
        PicoProofMarketplace {
            requests: Vec::new(),
            bids: Vec::new(),
            responses: Vec::new(),
            provers: Vec::new(),
            verifications: Vec::new(),
            stats: MarketplaceStats {
                total_requests: 0,
                total_proofs_generated: 0,
                active_provers: 0,
                average_proof_time: 0,
                average_price: 0,
                total_volume: 0,
                success_rate: Ratio::zero(),
                last_updated: now,
            },
        }
    }

    fn find_request(&self, id: u128) -> (found: Option<usize>)
        ensures
            as_position(found) == self@.request_index(id),
            found matches Some(i) ==> i < self.requests@.len() && self.requests@[i as int].id == id,
    {
        let mut i: usize = 0;
        while i < self.requests.len()
            invariant
                i <= self.requests@.len(),
                forall|j: int| 0 <= j < i ==> !request_with(id)(#[trigger] self.requests@[j]),
            decreases self.requests@.len() - i,
        {
            if self.requests[i].id == id {
                proof {
                    first_hit_found(self.requests@, request_with(id), i as int);
                }
                return Some(i);
            }
            i += 1;
        }
        proof {
            first_hit_missing(self.requests@, request_with(id));
        }
        None
    }

    fn find_prover(&self, id: &str) -> (found: Option<usize>)
        ensures
            as_position(found) == self@.prover_index(id@),
            found matches Some(i) ==> i < self.provers@.len() && self.provers@[i as int].id@ == id@,
    {
        let mut i: usize = 0;
        while i < self.provers.len()
            invariant
                i <= self.provers@.len(),
                forall|j: int| 0 <= j < i ==> !prover_with(id@)(#[trigger] self.provers@[j]),
            decreases self.provers@.len() - i,
        {
            if same_text(self.provers[i].id.as_str(), id) {
                proof {
                    first_hit_found(self.provers@, prover_with(id@), i as int);
                }
                return Some(i);
            }
            i += 1;
        }
        proof {
            first_hit_missing(self.provers@, prover_with(id@));
        }
        None
    }

    fn find_response(&self, id: u128) -> (found: Option<usize>)
        ensures
            as_position(found) == self@.response_index(id),
            found matches Some(i) ==> i < self.responses@.len() && self.responses@[i as int].id == id,
    {
        let mut i: usize = 0;
        while i < self.responses.len()
            invariant
                i <= self.responses@.len(),
                forall|j: int| 0 <= j < i ==> !response_with(id)(#[trigger] self.responses@[j]),
            decreases self.responses@.len() - i,
        {
            if self.responses[i].id == id {
                proof {
                    first_hit_found(self.responses@, response_with(id), i as int);
                }
                return Some(i);
            }
            i += 1;
        }
        proof {
            first_hit_missing(self.responses@, response_with(id));
        }
        None
    }

    fn find_verification(&self, proof_id: u128) -> (found: Option<usize>)
        ensures
            as_position(found) == self@.verification_index(proof_id),
            found matches Some(i) ==> i < self.verifications@.len(),
    {
        let mut i: usize = 0;
        while i < self.verifications.len()
            invariant
                i <= self.verifications@.len(),
                forall|j: int|
                    0 <= j < i ==> !verification_of(proof_id)(#[trigger] self.verifications@[j]),
            decreases self.verifications@.len() - i,
        {
            if self.verifications[i].proof_id == proof_id {
                proof {
                    first_hit_found(self.verifications@, verification_of(proof_id), i as int);
                }
                return Some(i);
            }
            i += 1;
        }
        proof {
            first_hit_missing(self.verifications@, verification_of(proof_id));
        }
        None
    }

    fn find_bid(&self, request_id: u128, bid_id: u128) -> (found: Option<usize>)
        ensures
            as_position(found) == self@.bid_index(request_id, bid_id),
            found matches Some(i) ==> i < self.bids@.len(),
    {
        let mut i: usize = 0;
        while i < self.bids.len()
            invariant
                i <= self.bids@.len(),
                forall|j: int| 0 <= j < i ==> !bid_with(request_id, bid_id)(#[trigger] self.bids@[j]),
            decreases self.bids@.len() - i,
        {
            if self.bids[i].request_id == request_id && self.bids[i].id == bid_id {
                proof {
                    first_hit_found(self.bids@, bid_with(request_id, bid_id), i as int);
                }
                return Some(i);
            }
            i += 1;
        }
        proof {
            first_hit_missing(self.bids@, bid_with(request_id, bid_id));
        }
        None
    }

    fn has_eligible_prover(&self, backend: &str) -> (r: bool)
        ensures
            r == self@.has_eligible_prover(backend@),
    {
        let mut i: usize = 0;
        while i < self.provers.len()
            invariant
                i <= self.provers@.len(),
                forall|j: int| 0 <= j < i ==> !(#[trigger] self.provers@[j]).supports(backend@),
            decreases self.provers@.len() - i,
        {
            if self.provers[i].supports_backend(backend) {
                assert(self@.provers[i as int].supports(backend@));
                return true;
            }
            i += 1;
        }
        false
    }

    /// Registers a prover. A profile whose id is taken is rejected with
    /// `AlreadyRegistered`, one that lists no backend with `NoBackends`; otherwise
    /// the profile is added and the count of active provers follows.
    pub fn register_prover(&mut self, profile: ProverProfile) -> (result: Result<(), MarketError>)
        ensures
            match result {
                Ok(()) => old(self)@.register_prover_error(profile) is None && final(self)@
                    == old(self)@.register_prover(profile),
                Err(e) => old(self)@.register_prover_error(profile) == Some(e) && final(self)@
                    == old(self)@,
            },
            old(self)@.wf() ==> final(self)@.wf(),
    {
        let ghost before = self@;
        if self.find_prover(profile.id.as_str()).is_some() {
            return Err(MarketError::AlreadyRegistered);
        }
        if profile.supported_backends.len() == 0 {
            return Err(MarketError::NoBackends);
        }
        self.provers.push(profile);
        self.stats.active_provers = self.provers.len();
        proof {
            if before.wf() {
                assert(self.provers@.len() <= usize::MAX);
                step_keeps_well_formed(before, Operation::RegisterProver { profile });
            }
        }
        Ok(())
    }

    /// Admits a request at time `now`. It is rejected with `InvalidDeadline` unless
    /// its deadline lies strictly after `now`, with `EmptyInput` if it carries no
    /// input, and with `NoEligibleProver` if no registered prover supports its
    /// backend. Otherwise it is stored as pending and its id is returned.
    pub fn submit_request(&mut self, request: ProofRequest, now: u64) -> (result: Result<
        u128,
        MarketError,
    >)
        requires
            old(self)@.submit_request_error(request, now) is None ==> old(self)@.stats.total_requests
                < u64::MAX,
        ensures
            match result {
                Ok(id) => old(self)@.submit_request_error(request, now) is None && final(self)@
                    == old(self)@.submit_request(request, now) && id == request.id,
                Err(e) => old(self)@.submit_request_error(request, now) == Some(e) && final(self)@
                    == old(self)@,
            },
            old(self)@.wf() ==> final(self)@.wf(),
    {
        let ghost before = self@;
        if request.deadline <= now {
            return Err(MarketError::InvalidDeadline);
        }
        if request.input_data.len() == 0 {
            return Err(MarketError::EmptyInput);
        }
        if !self.has_eligible_prover(request.backend.as_str()) {
            return Err(MarketError::NoEligibleProver);
        }
        let id = request.id;
        let mut stored = request;
        stored.status = RequestStatus::Pending;
        match self.find_request(id) {
            Some(i) => {
                self.requests[i] = stored;
            },
            None => {
                self.requests.push(stored);
            },
        }
        self.stats.total_requests = self.stats.total_requests + 1;
        self.stats.last_updated = now;
        proof {
            if before.wf() {
                assert(self.provers@.len() <= usize::MAX);
                step_keeps_well_formed(before, Operation::SubmitRequest { request, now });
            }
        }
        Ok(id)
    }

    /// Cancels the request `request_id` on behalf of `requester_id`. The call is
    /// rejected with `NotFound` for an unknown request, with `Unauthorized` if
    /// the request belongs to somebody else, and with `InvalidState` unless the
    /// request is pending or in progress. Otherwise the request is cancelled.
    pub fn cancel_request(&mut self, request_id: u128, requester_id: &str) -> (result: Result<
        (),
        MarketError,
    >)
        ensures
            match result {
                Ok(()) => old(self)@.cancel_request_error(request_id, requester_id@) is None
                    && final(self)@ == old(self)@.cancel_request(request_id),
                Err(e) => old(self)@.cancel_request_error(request_id, requester_id@) == Some(e)
                    && final(self)@ == old(self)@,
            },
            old(self)@.wf() ==> final(self)@.wf(),
    {
        let ghost before = self@;
        let i = match self.find_request(request_id) {
            Some(i) => i,
            None => {
                return Err(MarketError::NotFound);
            },
        };
        if !same_text(self.requests[i].requester_id.as_str(), requester_id) {
            return Err(MarketError::Unauthorized);
        }
        let status = self.requests[i].status;
        if status != RequestStatus::Pending && status != RequestStatus::InProgress {
            return Err(MarketError::InvalidState);
        }
        self.requests[i].status = RequestStatus::Cancelled;
        proof {
            if before.wf() {
                assert(self.provers@.len() <= usize::MAX);
                step_keeps_well_formed(
                    before,
                    Operation::CancelRequest { request_id, requester_id: requester_id@ },
                );
            }
        }
        Ok(())
    }

    /// Takes a bid. It is rejected with `NotFound` if its request is unknown, with
    /// `RequestClosed` unless the request is pending, and with `EstimateTooLong`
    /// if it estimates more than one hour. Otherwise it is appended as an active
    /// bid and its id is returned.
    pub fn submit_bid(&mut self, bid: Bid) -> (result: Result<u128, MarketError>)
        ensures
            match result {
                Ok(id) => old(self)@.submit_bid_error(bid) is None && final(self)@
                    == old(self)@.submit_bid(bid) && id == bid.id,
                Err(e) => old(self)@.submit_bid_error(bid) == Some(e) && final(self)@ == old(self)@,
            },
            old(self)@.wf() ==> final(self)@.wf(),
    {
        let ghost before = self@;
        let i = match self.find_request(bid.request_id) {
            Some(i) => i,
            None => {
                return Err(MarketError::NotFound);
            },
        };
        if self.requests[i].status != RequestStatus::Pending {
            return Err(MarketError::RequestClosed);
        }
        if bid.estimated_time > MAX_ESTIMATED_TIME {
            return Err(MarketError::EstimateTooLong);
        }
        let id = bid.id;
        let mut stored = bid;
        stored.status = BidStatus::Active;
        self.bids.push(stored);
        proof {
            if before.wf() {
                assert(self.provers@.len() <= usize::MAX);
                step_keeps_well_formed(before, Operation::SubmitBid { bid });
            }
        }
        Ok(id)
    }

    /// Accepts the bid `bid_id` on the request `request_id`. The call is rejected
    /// with `NotFound` for an unknown request, with `RequestClosed` unless the
    /// request is pending, and with `NotFound` if the request has no such bid.
    /// Otherwise that bid is accepted, every other bid on the request is
    /// rejected, and the request is in progress; bids on other requests stay as
    /// they are.
    pub fn accept_bid(&mut self, request_id: u128, bid_id: u128) -> (result: Result<
        (),
        MarketError,
    >)
        ensures
            match result {
                Ok(()) => old(self)@.accept_bid_error(request_id, bid_id) is None && final(self)@
                    == old(self)@.accept_bid(request_id, bid_id),
                Err(e) => old(self)@.accept_bid_error(request_id, bid_id) == Some(e) && final(self)@
                    == old(self)@,
            },
            old(self)@.wf() ==> final(self)@.wf(),
    {
        let ghost before = self@;
        let i = match self.find_request(request_id) {
            Some(i) => i,
            None => {
                return Err(MarketError::NotFound);
            },
        };
        if self.requests[i].status != RequestStatus::Pending {
            return Err(MarketError::RequestClosed);
        }
        let winner = match self.find_bid(request_id, bid_id) {
            Some(w) => w,
            None => {
                return Err(MarketError::NotFound);
            },
        };
        self.requests[i].status = RequestStatus::InProgress;
        let mut k: usize = 0;
        while k < self.bids.len()
            invariant
                k <= self.bids@.len(),
                self.bids@.len() == before.bids.len(),
                forall|j: int|
                    0 <= j < k ==> self.bids@[j] == before.settled_bid(
                        request_id,
                        winner as int,
                        j,
                    ),
                forall|j: int| k <= j < self.bids@.len() ==> self.bids@[j] == before.bids[j],
                self.requests@ == before.with_status(i as int, RequestStatus::InProgress).requests,
                self.responses@ == before.responses,
                self.provers@ == before.provers,
                self.verifications@ == before.verifications,
                self.stats == before.stats,
            decreases self.bids@.len() - k,
        {
            if self.bids[k].request_id == request_id {
                if k == winner {
                    self.bids[k].status = BidStatus::Accepted;
                } else {
                    self.bids[k].status = BidStatus::Rejected;
                }
            }
            k += 1;
        }
        proof {
            assert(self.bids@ =~= before.accept_bid(request_id, bid_id).bids);
            if before.wf() {
                assert(self.provers@.len() <= usize::MAX);
                step_keeps_well_formed(before, Operation::AcceptBid { request_id, bid_id });
            }
        }
        Ok(())
    }

    /// Recomputes the averages and the success rate from the stored responses and
    /// notes `now` as the time of the last update.
    fn update_stats(&mut self, now: u64)
        ensures
            final(self)@ == old(self)@.refreshed(now),
    {
        let n = self.responses.len();
        if n > 0 {
            let mut time: u128 = 0;
            let mut price: u128 = 0;
            let mut verified: usize = 0;
            let mut i: usize = 0;
            while i < n
                invariant
                    n == self.responses@.len(),
                    i <= n,
                    time == total_generation_time(self.responses@.take(i as int)),
                    price == total_price(self.responses@.take(i as int)),
                    verified == verified_count(self.responses@.take(i as int)),
                    time <= i * u64::MAX,
                    price <= i * u64::MAX,
                    verified <= i,
                decreases n - i,
            {
                proof {
                    let next = self.responses@.take(i + 1);
                    assert(next.drop_last() =~= self.responses@.take(i as int));
                    assert(next.last() == self.responses@[i as int]);
                    assert((i + 1) * u64::MAX == i * u64::MAX + u64::MAX) by (nonlinear_arith);
                    assert(i * u64::MAX <= usize::MAX * u64::MAX) by (nonlinear_arith)
                        requires
                            i <= usize::MAX,
                    ;
                }
                time = time + self.responses[i].generation_time as u128;
                price = price + self.responses[i].price as u128;
                if self.responses[i].verified {
                    verified = verified + 1;
                }
                i += 1;
            }
            proof {
                assert(self.responses@.take(n as int) =~= self.responses@);
                assert(time / (n as u128) <= u64::MAX && price / (n as u128) <= u64::MAX)
                    by (nonlinear_arith)
                    requires
                        time <= n * u64::MAX,
                        price <= n * u64::MAX,
                        n > 0,
                ;
            }
            self.stats.average_proof_time = (time / (n as u128)) as u64;
            self.stats.average_price = (price / (n as u128)) as u64;
            self.stats.success_rate = Ratio::of(verified as u64, n as u64);
        }
        self.stats.last_updated = now;
    }

    /// Whether the counters that recording `response` advances have room for it:
    /// the count of proofs and the volume of the marketplace, and the counts of
    /// the prover that submits it, if it is registered.
    pub fn has_room_for(&self, response: &ProofResponse) -> (ok: bool)
        ensures
            ok == self@.has_room_for(*response),
    {
        let prover_has_room = match self.find_prover(response.prover_id.as_str()) {
            Some(p) => self.provers[p].total_proofs < u64::MAX && self.provers[p].successful_proofs
                < u64::MAX,
            None => true,
        };
        self.stats.total_proofs_generated < u64::MAX && self.stats.total_volume <= u64::MAX
            - response.price && prover_has_room
    }

    /// Records a proof at time `now`. The response is rejected with `NotFound` if
    /// its request is unknown, with `RequestNotInProgress` unless the request is
    /// in progress, and with `EmptyProof` if it carries no proof. Otherwise the
    /// response is stored unverified, the request is completed, the volume and
    /// the proof counters of the marketplace and of the prover grow, and the
    /// prover's reputation and the statistics are recomputed. The id of the
    /// response is returned.
    pub fn submit_proof(&mut self, response: ProofResponse, now: u64) -> (result: Result<
        u128,
        MarketError,
    >)
        requires
            old(self)@.submit_proof_error(response) is None ==> old(self)@.has_room_for(response),
        ensures
            match result {
                Ok(id) => old(self)@.submit_proof_error(response) is None && final(self)@
                    == old(self)@.submit_proof(response, now) && id == response.id,
                Err(e) => old(self)@.submit_proof_error(response) == Some(e) && final(self)@
                    == old(self)@,
            },
            old(self)@.wf() ==> final(self)@.wf(),
    {
        let ghost before = self@;
        let at = match self.find_request(response.request_id) {
            Some(i) => i,
            None => {
                return Err(MarketError::NotFound);
            },
        };
        if self.requests[at].status != RequestStatus::InProgress {
            return Err(MarketError::RequestNotInProgress);
        }
        if response.proof_data.len() == 0 {
            return Err(MarketError::EmptyProof);
        }
        let id = response.id;
        let price = response.price;
        let prover = self.find_prover(response.prover_id.as_str());
        let slot = self.find_response(id);
        let mut stored = response;
        stored.verified = false;
        match slot {
            Some(i) => {
                self.responses[i] = stored;
            },
            None => {
                self.responses.push(stored);
            },
        }
        self.stats.total_proofs_generated = self.stats.total_proofs_generated + 1;
        self.stats.total_volume = self.stats.total_volume + price;
        self.requests[at].status = RequestStatus::Completed;
        match prover {
            Some(p) => {
                let total = self.provers[p].total_proofs + 1;
                let successful = self.provers[p].successful_proofs + 1;
                self.provers[p].total_proofs = total;
                self.provers[p].successful_proofs = successful;
                self.provers[p].reputation_score = Ratio::of(successful, total);
            },
            None => {},
        }
        proof {
            assert(self@.provers =~= before.provers_with(
                response.prover_id@,
                |p: ProverProfile| credited(p),
            ));
        }
        self.update_stats(now);
        proof {
            if before.wf() {
                assert(self.provers@.len() <= usize::MAX);
                step_keeps_well_formed(before, Operation::SubmitProof { response, now });
            }
        }
        Ok(id)
    }

    /// Applies a verification outcome to the proof `proof_id` at time `now`. The
    /// call is rejected with `NotFound` for an unknown proof. Otherwise the
    /// response carries the outcome, the outcome is filed under the proof, an
    /// invalid proof costs its prover one success (never going below zero), and
    /// the prover's reputation and the statistics are recomputed. Every call
    /// applies its outcome afresh: a proof verified twice as invalid costs two
    /// successes.
    pub fn verify_proof(&mut self, proof_id: u128, result: VerificationResult, now: u64) -> (outcome:
        Result<(), MarketError>)
        ensures
            match outcome {
                Ok(()) => old(self)@.verify_proof_error(proof_id) is None && final(self)@
                    == old(self)@.verify_proof(proof_id, result, now),
                Err(e) => old(self)@.verify_proof_error(proof_id) == Some(e) && final(self)@
                    == old(self)@,
            },
            old(self)@.wf() ==> final(self)@.wf(),
    {
        let ghost before = self@;
        let i = match self.find_response(proof_id) {
            Some(i) => i,
            None => {
                return Err(MarketError::NotFound);
            },
        };
        let valid = result.valid;
        let prover = self.find_prover(self.responses[i].prover_id.as_str());
        let slot = self.find_verification(proof_id);
        self.responses[i].verified = valid;
        let mut filed = result;
        filed.proof_id = proof_id;
        match slot {
            Some(v) => {
                self.verifications[v] = filed;
            },
            None => {
                self.verifications.push(filed);
            },
        }
        match prover {
            Some(p) => {
                let mut successful = self.provers[p].successful_proofs;
                if !valid && successful > 0 {
                    successful = successful - 1;
                }
                let total = self.provers[p].total_proofs;
                self.provers[p].successful_proofs = successful;
                self.provers[p].reputation_score = Ratio::of(successful, total);
            },
            None => {},
        }
        proof {
            assert(self@.provers =~= before.provers_with(
                before.responses[i as int].prover_id@,
                |p: ProverProfile| assessed(p, result.valid),
            ));
        }
        self.update_stats(now);
        proof {
            if before.wf() {
                assert(self.provers@.len() <= usize::MAX);
                step_keeps_well_formed(before, Operation::VerifyProof { proof_id, result, now });
            }
        }
        Ok(())
    }

    /// The status of the request `request_id`, if the marketplace holds it.
    pub fn get_request_status(&self, request_id: u128) -> (status: Option<&RequestStatus>)
        ensures
            match status {
                Some(s) => self@.status_of(request_id) == Some(*s),
                None => self@.status_of(request_id) is None,
            },
    {
        match self.find_request(request_id) {
            Some(i) => Some(&self.requests[i].status),
            None => None,
        }
    }

    /// The profile of the prover `id`, if it is registered.
    pub fn get_prover(&self, id: &str) -> (profile: Option<&ProverProfile>)
        ensures
            match profile {
                Some(p) => self@.prover(id@) == Some(*p),
                None => self@.prover(id@) is None,
            },
    {
        match self.find_prover(id) {
            Some(i) => Some(&self.provers[i]),
            None => None,
        }
    }

    /// The response to the request `request_id`, if one was submitted.
    pub fn get_proof_by_request(&self, request_id: u128) -> (response: Option<&ProofResponse>)
        ensures
            match response {
                Some(r) => self@.proof_for(request_id) == Some(*r),
                None => self@.proof_for(request_id) is None,
            },
    {
        let mut i: usize = 0;
        while i < self.responses.len()
            invariant
                i <= self.responses@.len(),
                forall|j: int|
                    0 <= j < i ==> !response_to(request_id)(#[trigger] self.responses@[j]),
            decreases self.responses@.len() - i,
        {
            if self.responses[i].request_id == request_id {
                proof {
                    first_hit_found(self.responses@, response_to(request_id), i as int);
                }
                return Some(&self.responses[i]);
            }
            i += 1;
        }
        proof {
            first_hit_missing(self.responses@, response_to(request_id));
        }
        None
    }

    /// The requests that are pending, in the order in which they were admitted.
    pub fn get_pending_requests(&self) -> (pending: Vec<&ProofRequest>)
        ensures
            pending@.unref() == self@.pending_requests(),
    {
        let mut out: Vec<&ProofRequest> = Vec::new();
        let mut k: usize = 0;
        proof {
            assert(self.requests@.take(0).filter(is_pending()) =~= Seq::empty()) by {
                reveal(Seq::filter);
            }
            assert(out@.unref() =~= Seq::empty());
        }
        while k < self.requests.len()
            invariant
                k <= self.requests@.len(),
                out@.unref() == self.requests@.take(k as int).filter(is_pending()),
            decreases self.requests@.len() - k,
        {
            let request = &self.requests[k];
            proof {
                let seen = self.requests@.take(k as int);
                assert(self.requests@.take(k + 1) =~= seen.push(*request));
                seen.lemma_filter_push(*request, is_pending());
                assert(out@.push(request).unref() =~= out@.unref().push(*request));
            }
            if request.status == RequestStatus::Pending {
                out.push(request);
            }
            k += 1;
        }
        proof {
            assert(self.requests@.take(self.requests@.len() as int) =~= self.requests@);
        }
        out
    }

    /// The provers that pass every filter that is given, in the order in which
    /// they registered: those that support `backend`, whose base price is at most
    /// `max_price`, and whose reputation is at least `min_reputation`.
    pub fn search_provers(
        &self,
        backend: Option<&str>,
        max_price: Option<u64>,
        min_reputation: Option<Ratio>,
    ) -> (found: Vec<&ProverProfile>)
        ensures
            found@.unref() == self@.search(text_of(backend), max_price, min_reputation),
    {
        let ghost wanted = search_filter(text_of(backend), max_price, min_reputation);
        let mut out: Vec<&ProverProfile> = Vec::new();
        let mut k: usize = 0;
        proof {
            assert(self.provers@.take(0).filter(wanted) =~= Seq::empty()) by {
                reveal(Seq::filter);
            }
            assert(out@.unref() =~= Seq::empty());
        }
        while k < self.provers.len()
            invariant
                k <= self.provers@.len(),
                wanted == search_filter(text_of(backend), max_price, min_reputation),
                out@.unref() == self.provers@.take(k as int).filter(wanted),
            decreases self.provers@.len() - k,
        {
            let prover = &self.provers[k];
            proof {
                let seen = self.provers@.take(k as int);
                assert(self.provers@.take(k + 1) =~= seen.push(*prover));
                seen.lemma_filter_push(*prover, wanted);
                assert(out@.push(prover).unref() =~= out@.unref().push(*prover));
            }
            let backend_ok = match backend {
                Some(b) => prover.supports_backend(b),
                None => true,
            };
            let price_ok = match max_price {
                Some(price) => prover.pricing.base_price <= price,
                None => true,
            };
            let reputation_ok = match min_reputation {
                Some(r) => prover.reputation_score.is_at_least(&r),
                None => true,
            };
            if backend_ok && price_ok && reputation_ok {
                out.push(prover);
            }
            k += 1;
        }
        proof {
            assert(self.provers@.take(self.provers@.len() as int) =~= self.provers@);
        }
        out
    }

    /// The `count` best bids on the request `request_id`: cheapest first and, among
    /// bids of one price, the one with the shortest estimate first; bids that tie
    /// in both keep the order in which they came. Fewer are returned where the
    /// request has fewer bids, and none for an unknown request.
    pub fn get_best_bids(&self, request_id: u128, count: usize) -> (best: Vec<&Bid>)
        ensures
            best@.unref() == self@.best_bids(request_id, count as nat),
    {
        let mut out: Vec<&Bid> = Vec::new();
        let mut k: usize = 0;
        proof {
            assert(self.bids@.take(0).filter(bid_on(request_id)) =~= Seq::empty()) by {
                reveal(Seq::filter);
            }
            assert(out@.unref() =~= Seq::empty());
        }
        while k < self.bids.len()
            invariant
                k <= self.bids@.len(),
                out@.unref() == ranked(
                    self.bids@.take(k as int).filter(bid_on(request_id)),
                    bid_order(),
                ),
            decreases self.bids@.len() - k,
        {
            let bid = &self.bids[k];
            proof {
                let seen = self.bids@.take(k as int);
                assert(self.bids@.take(k + 1) =~= seen.push(*bid));
                seen.lemma_filter_push(*bid, bid_on(request_id));
            }
            if bid.request_id == request_id {
                let ghost placed = out@.unref();
                let mut j: usize = out.len();
                proof {
                    assert(placed.take(j as int) =~= placed);
                }
                while j > 0 && bid_ranks_before(bid, out[j - 1])
                    invariant
                        j <= out@.len(),
                        placed == out@.unref(),
                        rank_position(placed, *bid, bid_order()) == rank_position(
                            placed.take(j as int),
                            *bid,
                            bid_order(),
                        ),
                    decreases j,
                {
                    proof {
                        assert(placed.take(j as int).drop_last() =~= placed.take(j - 1));
                    }
                    j -= 1;
                }
                proof {
                    let kept = seen_bids(self.bids@, k as int, request_id);
                    assert(kept.push(*bid).drop_last() =~= kept);
                    assert(out@.insert(j as int, bid).unref() =~= placed.insert(j as int, *bid));
                }
                out.insert(j, bid);
            }
            k += 1;
        }
        proof {
            assert(self.bids@.take(self.bids@.len() as int) =~= self.bids@);
            let all = out@.unref();
            if count < out@.len() {
                assert(out@.subrange(0, count as int).unref() =~= all.take(count as int));
            }
        }
        out.truncate(count);
        out
    }

    /// The provers by falling reputation and, among provers of one reputation, by
    /// falling count of successful proofs; provers that tie in both keep the
    /// order in which they registered. Each comes with its id.
    pub fn get_prover_rankings(&self) -> (rankings: Vec<(&String, &ProverProfile)>)
        ensures
            rankings@.unref() == self@.prover_rankings().map_values(with_id()),
    {
        let mut out: Vec<(&String, &ProverProfile)> = Vec::new();
        let ghost mut placed: Seq<ProverProfile> = Seq::empty();
        let mut k: usize = 0;
        proof {
            assert(out@.unref() =~= placed.map_values(with_id()));
        }
        while k < self.provers.len()
            invariant
                k <= self.provers@.len(),
                placed == ranked(self.provers@.take(k as int), prover_order()),
                out@.unref() == placed.map_values(with_id()),
            decreases self.provers@.len() - k,
        {
            let prover = &self.provers[k];
            let mut j: usize = out.len();
            proof {
                assert(out@.unref().len() == placed.len());
                assert(placed.take(j as int) =~= placed);
            }
            while j > 0 && prover_ranks_before(prover, out[j - 1].1)
                invariant
                    j <= out@.len(),
                    out@.len() == placed.len(),
                    out@.unref() == placed.map_values(with_id()),
                    rank_position(placed, *prover, prover_order()) == rank_position(
                        placed.take(j as int),
                        *prover,
                        prover_order(),
                    ),
                decreases j,
            {
                proof {
                    assert(out@.unref()[j - 1] == placed.map_values(with_id())[j - 1]);
                    assert(placed.take(j as int).drop_last() =~= placed.take(j - 1));
                }
                j -= 1;
            }
            proof {
                assert(out@.unref().len() == placed.len());
                if j > 0 {
                    assert(out@.unref()[j - 1] == with_id()(placed[j - 1]));
                }
                let seen = self.provers@.take(k as int);
                assert(self.provers@.take(k + 1) =~= seen.push(*prover));
                assert(seen.push(*prover).drop_last() =~= seen);
                let grown = out@.insert(j as int, (&prover.id, prover)).unref();
                let wanted = placed.insert(j as int, *prover).map_values(with_id());
                let paired = placed.map_values(with_id());
                assert forall|i: int| 0 <= i < grown.len() implies grown[i] == wanted[i] by {
                    if i < j {
                        assert(out@.unref()[i] == paired[i]);
                    } else if i > j {
                        assert(out@.unref()[i - 1] == paired[i - 1]);
                    }
                }
                assert(grown =~= wanted);
                placed = placed.insert(j as int, *prover);
            }
            out.insert(j, (&prover.id, prover));
            k += 1;
        }
        proof {
            assert(self.provers@.take(self.provers@.len() as int) =~= self.provers@);
        }
        out
    }

    /// The requests, in the order in which they were first admitted.
    pub fn requests(&self) -> (all: &Vec<ProofRequest>)
        ensures
            all@ == self@.requests,
    {
        &self.requests
    }

    /// The bids, in the order in which they came.
    pub fn bids(&self) -> (all: &Vec<Bid>)
        ensures
            all@ == self@.bids,
    {
        &self.bids
    }

    /// The responses, in the order in which they were first recorded.
    pub fn responses(&self) -> (all: &Vec<ProofResponse>)
        ensures
            all@ == self@.responses,
    {
        &self.responses
    }

    /// The provers, in the order in which they registered.
    pub fn provers(&self) -> (all: &Vec<ProverProfile>)
        ensures
            all@ == self@.provers,
    {
        &self.provers
    }

    /// The verification outcomes, in the order in which they were first filed.
    pub fn verifications(&self) -> (all: &Vec<VerificationResult>)
        ensures
            all@ == self@.verifications,
    {
        &self.verifications
    }

    /// The provers as a table: a header line, then one line per prover in the
    /// order of registration, with id, name, reputation as a percentage with two
    /// decimals, total and successful proofs, and base price.
    pub fn export_csv(&self) -> (table: String)
        ensures
            table@ == csv_table(self@.provers),
    {
        write_csv(&self.provers)
    }

    /// The aggregate statistics.
    pub fn get_marketplace_stats(&self) -> (stats: &MarketplaceStats)
        ensures
            *stats == self@.stats,
    {
        &self.stats
    }
}

} // verus!
