//! The laws of the marketplace, proved of the ledger.
//!
//! Every law speaks of the transitions that `ledger` defines, which are the
//! transitions that the executable marketplace performs.

use crate::ledger::{
    assessed, bid_with, credited, prover_with, reputation_of, request_with, response_to,
    response_with, verification_of, Ledger, Operation,
};
use crate::lookup::{
    filter_of_single_hit, first_hit, first_hit_after_push, first_hit_agrees, first_hit_is_least,
    put_keeps_others,
};
use crate::types::{
    Bid, BidStatus, ProofRequest, ProofResponse, ProverProfile, RequestStatus, VerificationResult,
};
use vstd::prelude::*;

verus! {

// ----- the lifecycle of a request -----

/// The edges of the lifecycle: a pending request goes in progress or is
/// cancelled, a request in progress is completed or cancelled.
pub open spec fn legal_edge(from: RequestStatus, to: RequestStatus) -> bool {
    ||| from == RequestStatus::Pending && to == RequestStatus::InProgress
    ||| from == RequestStatus::InProgress && to == RequestStatus::Completed
    ||| from == RequestStatus::Pending && to == RequestStatus::Cancelled
    ||| from == RequestStatus::InProgress && to == RequestStatus::Cancelled
}

/// Whether `to` is reached from `from` along edges of the lifecycle.
pub open spec fn reachable(from: RequestStatus, to: RequestStatus) -> bool {
    ||| from == to
    ||| legal_edge(from, to)
    ||| from == RequestStatus::Pending && to == RequestStatus::Completed
}

/// Whether `op` submits anew the request `id` of `ledger` after that request
/// has left the pending state.
pub open spec fn resubmits(ledger: Ledger, op: Operation, id: u128) -> bool {
    &&& op matches Operation::SubmitRequest { request, now } && request.id == id
    &&& ledger.status_of(id) matches Some(status) && status != RequestStatus::Pending
}

/// Setting the status of one request leaves every request where it was, and
/// changes the status of that request alone.
pub proof fn with_status_changes_one(ledger: Ledger, i: int, status: RequestStatus, id: u128)
    requires
        0 <= i < ledger.requests.len(),
    ensures
        ledger.with_status(i, status).request_index(id) == ledger.request_index(id),
        ledger.with_status(i, status).status_of(id) == if ledger.request_index(id) == Some(i) {
            Some(status)
        } else {
            ledger.status_of(id)
        },
{
    let after = ledger.with_status(i, status);
    assert forall|j: int| 0 <= j < ledger.requests.len() implies request_with(id)(
        #[trigger] ledger.requests[j],
    ) == request_with(id)(after.requests[j]) by {}
    first_hit_agrees(ledger.requests, after.requests, request_with(id));
    first_hit_is_least(ledger.requests, request_with(id));
}

/// A request is admitted as pending.
pub proof fn admitted_request_is_pending(before: Ledger, request: ProofRequest, now: u64)
    ensures
        before.submit_request(request, now).status_of(request.id) == Some(RequestStatus::Pending),
{
    let hit = request_with(request.id);
    let stored = ProofRequest { status: RequestStatus::Pending, ..request };
    let after = before.submit_request(request, now);
    first_hit_is_least(before.requests, hit);
    match first_hit(before.requests, hit) {
        Some(i) => {
            assert forall|j: int| 0 <= j < before.requests.len() implies hit(
                #[trigger] before.requests[j],
            ) == hit(after.requests[j]) by {}
            first_hit_agrees(before.requests, after.requests, hit);
        },
        None => {
            first_hit_after_push(before.requests, stored, hit);
        },
    }
}

/// The status of a request moves only along the lifecycle: whatever operation
/// is attempted, a request that the ledger holds is still held afterwards, and
/// its status is what it was or is reached from it by one legal edge. The one
/// exception, left out here, is submitting anew a request that is no longer
/// pending.
pub proof fn status_follows_lifecycle(before: Ledger, op: Operation, id: u128)
    requires
        before.status_of(id) is Some,
        !resubmits(before, op, id),
    ensures
        before.step(op).status_of(id) is Some,
        before.step(op).status_of(id) == before.status_of(id) || legal_edge(
            before.status_of(id).unwrap(),
            before.step(op).status_of(id).unwrap(),
        ),
{
    let after = before.step(op);
    if before.rejection(op) is None {
        first_hit_is_least(before.requests, request_with(id));
        match op {
            Operation::RegisterProver { profile } => {},
            Operation::SubmitRequest { request, now } => {
                if request.id == id {
                    admitted_request_is_pending(before, request, now);
                } else {
                    let stored = ProofRequest { status: RequestStatus::Pending, ..request };
                    put_keeps_others(
                        before.requests,
                        stored,
                        request_with(request.id),
                        request_with(id),
                    );
                }
            },
            Operation::CancelRequest { request_id, requester_id } => {
                let i = before.request_index(request_id).unwrap();
                first_hit_is_least(before.requests, request_with(request_id));
                with_status_changes_one(before, i, RequestStatus::Cancelled, id);
            },
            Operation::SubmitBid { bid } => {},
            Operation::AcceptBid { request_id, bid_id } => {
                let i = before.request_index(request_id).unwrap();
                first_hit_is_least(before.requests, request_with(request_id));
                with_status_changes_one(before, i, RequestStatus::InProgress, id);
            },
            Operation::SubmitProof { response, now } => {
                let i = before.request_index(response.request_id).unwrap();
                first_hit_is_least(before.requests, request_with(response.request_id));
                with_status_changes_one(before, i, RequestStatus::Completed, id);
            },
            Operation::VerifyProof { proof_id, result, now } => {},
        }
    }
}

/// Whether some operation among `ops`, attempted one after the other from
/// `ledger`, submits the request `id` anew after it has left the pending state.
pub open spec fn resubmitted_along(ledger: Ledger, ops: Seq<Operation>, id: u128) -> bool
    decreases ops.len(),
{
    if ops.len() == 0 {
        false
    } else {
        resubmitted_along(ledger, ops.drop_last(), id) || resubmits(
            ledger.run(ops.drop_last()),
            ops.last(),
            id,
        )
    }
}

/// Whatever operations are attempted in whatever order, the status of a request
/// is reached from its earlier status along the lifecycle, as long as the
/// request is not submitted anew after it has left the pending state.
pub proof fn lifecycle_holds_along(before: Ledger, ops: Seq<Operation>, id: u128)
    requires
        before.status_of(id) is Some,
        !resubmitted_along(before, ops, id),
    ensures
        before.run(ops).status_of(id) is Some,
        reachable(before.status_of(id).unwrap(), before.run(ops).status_of(id).unwrap()),
    decreases ops.len(),
{
    if ops.len() > 0 {
        lifecycle_holds_along(before, ops.drop_last(), id);
        status_follows_lifecycle(before.run(ops.drop_last()), ops.last(), id);
    }
}

// ----- nothing is stored twice -----

/// A new ledger is well formed.
pub proof fn new_ledger_is_well_formed(now: u64)
    ensures
        Ledger::empty(now).wf(),
{
}

/// Every operation keeps the ledger well formed: no record is ever stored
/// twice, and the count of active provers stays the number of provers (as long
/// as that number fits the machine).
pub proof fn step_keeps_well_formed(before: Ledger, op: Operation)
    requires
        before.wf(),
        before.step(op).provers.len() <= usize::MAX,
    ensures
        before.step(op).wf(),
{
    let after = before.step(op);
    if before.rejection(op) is None {
        match op {
            Operation::RegisterProver { profile } => {
                first_hit_is_least(before.provers, prover_with(profile.id@));
            },
            Operation::SubmitRequest { request, now } => {
                first_hit_is_least(before.requests, request_with(request.id));
            },
            Operation::CancelRequest { request_id, requester_id } => {
                first_hit_is_least(before.requests, request_with(request_id));
            },
            Operation::SubmitBid { bid } => {},
            Operation::AcceptBid { request_id, bid_id } => {
                first_hit_is_least(before.requests, request_with(request_id));
            },
            Operation::SubmitProof { response, now } => {
                first_hit_is_least(before.requests, request_with(response.request_id));
                first_hit_is_least(before.responses, response_with(response.id));
                first_hit_is_least(before.provers, prover_with(response.prover_id@));
            },
            Operation::VerifyProof { proof_id, result, now } => {
                first_hit_is_least(before.responses, response_with(proof_id));
                first_hit_is_least(before.verifications, verification_of(proof_id));
                let response = before.responses[before.response_index(proof_id).unwrap()];
                first_hit_is_least(before.provers, prover_with(response.prover_id@));
            },
        }
    }
}

// ----- the auction -----

/// Accepting a bid settles the auction of its request: the chosen bid is the
/// one bid on the request that is accepted, every other bid on the request is
/// rejected, no bid changes in anything but its status, the bids on other
/// requests do not change at all, and the request is in progress.
pub proof fn accepting_settles_auction(before: Ledger, request_id: u128, bid_id: u128)
    requires
        before.accept_bid_error(request_id, bid_id) is None,
    ensures
        ({
            let after = before.accept_bid(request_id, bid_id);
            let winner = before.bid_index(request_id, bid_id).unwrap();
            &&& after.bids.len() == before.bids.len()
            &&& 0 <= winner < after.bids.len()
            &&& after.bids[winner].id == bid_id
            &&& after.bids[winner].request_id == request_id
            &&& forall|k: int|
                0 <= k < after.bids.len() && (#[trigger] after.bids[k]).request_id == request_id
                    ==> after.bids[k].status == if k == winner {
                    BidStatus::Accepted
                } else {
                    BidStatus::Rejected
                }
            &&& forall|k: int|
                0 <= k < after.bids.len() ==> #[trigger] after.bids[k] == (Bid {
                    status: after.bids[k].status,
                    ..before.bids[k]
                })
            &&& forall|k: int|
                0 <= k < after.bids.len() && (#[trigger] before.bids[k]).request_id != request_id
                    ==> after.bids[k] == before.bids[k]
            &&& after.status_of(request_id) == Some(RequestStatus::InProgress)
        }),
{
    first_hit_is_least(before.bids, bid_with(request_id, bid_id));
    first_hit_is_least(before.requests, request_with(request_id));
    let i = before.request_index(request_id).unwrap();
    with_status_changes_one(before, i, RequestStatus::InProgress, request_id);
}

/// Whether every auction was settled at most once: a bid is accepted only on a
/// request that has left the pending state, and no two bids on one request are
/// accepted.
pub open spec fn one_winner_each(ledger: Ledger) -> bool {
    &&& forall|k: int|
        0 <= k < ledger.bids.len() && (#[trigger] ledger.bids[k]).status == BidStatus::Accepted
            ==> ledger.status_of(ledger.bids[k].request_id) is Some && ledger.status_of(
            ledger.bids[k].request_id,
        ) != Some(RequestStatus::Pending)
    &&& forall|j: int, k: int|
        0 <= j < k < ledger.bids.len() && (#[trigger] ledger.bids[j]).status == BidStatus::Accepted
            && (#[trigger] ledger.bids[k]).status == BidStatus::Accepted
            ==> ledger.bids[j].request_id != ledger.bids[k].request_id
}

/// A new ledger has no winner at all.
pub proof fn new_ledger_has_no_winner(now: u64)
    ensures
        one_winner_each(Ledger::empty(now)),
{
}

/// Every operation leaves each request with at most one accepted bid, but for
/// submitting anew a request that is no longer pending.
pub proof fn one_winner_is_kept(before: Ledger, op: Operation)
    requires
        one_winner_each(before),
        !(op matches Operation::SubmitRequest { request, now } && resubmits(before, op, request.id)),
    ensures
        one_winner_each(before.step(op)),
{
    let after = before.step(op);
    if before.rejection(op) is None {
        match op {
            Operation::RegisterProver { profile } => {},
            Operation::SubmitRequest { request, now } => {
                let stored = ProofRequest { status: RequestStatus::Pending, ..request };
                assert forall|k: int|
                    0 <= k < after.bids.len() && (#[trigger] after.bids[k]).status
                        == BidStatus::Accepted implies after.status_of(after.bids[k].request_id)
                    == before.status_of(before.bids[k].request_id) by {
                    let owner = before.bids[k].request_id;
                    if owner != request.id {
                        put_keeps_others(
                            before.requests,
                            stored,
                            request_with(request.id),
                            request_with(owner),
                        );
                    }
                }
            },
            Operation::CancelRequest { request_id, requester_id } => {
                let i = before.request_index(request_id).unwrap();
                first_hit_is_least(before.requests, request_with(request_id));
                assert forall|k: int|
                    0 <= k < after.bids.len() && (#[trigger] after.bids[k]).status
                        == BidStatus::Accepted implies after.status_of(after.bids[k].request_id)
                    is Some && after.status_of(after.bids[k].request_id) != Some(
                    RequestStatus::Pending,
                ) by {
                    with_status_changes_one(
                        before,
                        i,
                        RequestStatus::Cancelled,
                        before.bids[k].request_id,
                    );
                }
            },
            Operation::SubmitBid { bid } => {
                assert forall|k: int|
                    0 <= k < after.bids.len() && (#[trigger] after.bids[k]).status
                        == BidStatus::Accepted implies k < before.bids.len() && after.bids[k]
                    == before.bids[k] by {}
            },
            Operation::AcceptBid { request_id, bid_id } => {
                let i = before.request_index(request_id).unwrap();
                first_hit_is_least(before.requests, request_with(request_id));
                first_hit_is_least(before.bids, bid_with(request_id, bid_id));
                assert forall|k: int|
                    0 <= k < after.bids.len() && (#[trigger] after.bids[k]).status
                        == BidStatus::Accepted implies after.status_of(after.bids[k].request_id)
                    is Some && after.status_of(after.bids[k].request_id) != Some(
                    RequestStatus::Pending,
                ) by {
                    with_status_changes_one(
                        before,
                        i,
                        RequestStatus::InProgress,
                        before.bids[k].request_id,
                    );
                    if before.bids[k].request_id != request_id {
                        assert(before.bids[k].status == BidStatus::Accepted);
                    }
                }
                assert forall|j: int, k: int|
                    0 <= j < k < after.bids.len() && (#[trigger] after.bids[j]).status
                        == BidStatus::Accepted && (#[trigger] after.bids[k]).status
                        == BidStatus::Accepted implies after.bids[j].request_id
                    != after.bids[k].request_id by {
                    if before.bids[j].request_id != request_id && before.bids[k].request_id
                        != request_id {
                        assert(before.bids[j].status == BidStatus::Accepted);
                        assert(before.bids[k].status == BidStatus::Accepted);
                    }
                }
            },
            Operation::SubmitProof { response, now } => {
                let i = before.request_index(response.request_id).unwrap();
                first_hit_is_least(before.requests, request_with(response.request_id));
                assert forall|k: int|
                    0 <= k < after.bids.len() && (#[trigger] after.bids[k]).status
                        == BidStatus::Accepted implies after.status_of(after.bids[k].request_id)
                    is Some && after.status_of(after.bids[k].request_id) != Some(
                    RequestStatus::Pending,
                ) by {
                    with_status_changes_one(
                        before,
                        i,
                        RequestStatus::Completed,
                        before.bids[k].request_id,
                    );
                }
            },
            Operation::VerifyProof { proof_id, result, now } => {},
        }
    }
}

// ----- settlement -----

/// Whether every stored response belongs to a request that is completed.
pub open spec fn books_settled(ledger: Ledger) -> bool {
    forall|k: int|
        0 <= k < ledger.responses.len() ==> ledger.status_of(
            (#[trigger] ledger.responses[k]).request_id,
        ) == Some(RequestStatus::Completed)
}

/// Whether `op` submits anew a request to which the ledger holds a response.
pub open spec fn reopens_settled(ledger: Ledger, op: Operation) -> bool {
    op matches Operation::SubmitRequest { request, now } && ledger.proof_index(request.id) is Some
}

/// The books of a new ledger are settled.
pub proof fn new_books_are_settled(now: u64)
    ensures
        books_settled(Ledger::empty(now)),
{
}

/// Every operation keeps the books settled, but for submitting anew a request
/// to which a response is held.
pub proof fn books_stay_settled(before: Ledger, op: Operation)
    requires
        books_settled(before),
        !reopens_settled(before, op),
    ensures
        books_settled(before.step(op)),
{
    let after = before.step(op);
    if before.rejection(op) is None {
        assert forall|k: int| 0 <= k < after.responses.len() implies after.status_of(
            (#[trigger] after.responses[k]).request_id,
        ) == Some(RequestStatus::Completed) by {
            match op {
                Operation::RegisterProver { profile } => {},
                Operation::SubmitRequest { request, now } => {
                    let owner = before.responses[k].request_id;
                    first_hit_is_least(before.responses, response_to(request.id));
                    let stored = ProofRequest { status: RequestStatus::Pending, ..request };
                    put_keeps_others(
                        before.requests,
                        stored,
                        request_with(request.id),
                        request_with(owner),
                    );
                },
                Operation::CancelRequest { request_id, requester_id } => {
                    let i = before.request_index(request_id).unwrap();
                    first_hit_is_least(before.requests, request_with(request_id));
                    with_status_changes_one(
                        before,
                        i,
                        RequestStatus::Cancelled,
                        before.responses[k].request_id,
                    );
                },
                Operation::SubmitBid { bid } => {},
                Operation::AcceptBid { request_id, bid_id } => {
                    let i = before.request_index(request_id).unwrap();
                    first_hit_is_least(before.requests, request_with(request_id));
                    with_status_changes_one(
                        before,
                        i,
                        RequestStatus::InProgress,
                        before.responses[k].request_id,
                    );
                },
                Operation::SubmitProof { response, now } => {
                    let i = before.request_index(response.request_id).unwrap();
                    first_hit_is_least(before.requests, request_with(response.request_id));
                    first_hit_is_least(before.responses, response_with(response.id));
                    with_status_changes_one(
                        before,
                        i,
                        RequestStatus::Completed,
                        after.responses[k].request_id,
                    );
                    if after.responses[k].request_id != response.request_id {
                        assert(after.responses[k] == before.responses[k]);
                    }
                },
                Operation::VerifyProof { proof_id, result, now } => {
                    first_hit_is_least(before.responses, response_with(proof_id));
                    assert(after.responses[k].request_id == before.responses[k].request_id);
                },
            }
        }
    }
}

/// Recording a proof completes its request and leaves exactly one response to
/// that request: the one just recorded, stored as unverified.
pub proof fn proof_completes_request(before: Ledger, response: ProofResponse, now: u64)
    requires
        books_settled(before),
        before.submit_proof_error(response) is None,
    ensures
        before.submit_proof(response, now).status_of(response.request_id) == Some(
            RequestStatus::Completed,
        ),
        before.submit_proof(response, now).responses_to(response.request_id) == seq![
            ProofResponse { verified: false, ..response },
        ],
{
    let after = before.submit_proof(response, now);
    let owner = response.request_id;
    let stored = ProofResponse { verified: false, ..response };
    let i = before.request_index(owner).unwrap();
    first_hit_is_least(before.requests, request_with(owner));
    with_status_changes_one(before, i, RequestStatus::Completed, owner);
    first_hit_is_least(before.responses, response_with(response.id));
    assert forall|j: int| 0 <= j < before.responses.len() implies !response_to(owner)(
        #[trigger] before.responses[j],
    ) by {
        assert(before.status_of(before.responses[j].request_id) == Some(RequestStatus::Completed));
    }
    let at = match before.response_index(response.id) {
        Some(j) => j,
        None => before.responses.len() as int,
    };
    assert(after.responses[at] == stored);
    assert forall|j: int| 0 <= j < after.responses.len() && j != at implies !response_to(owner)(
        #[trigger] after.responses[j],
    ) by {
        assert(after.responses[j] == before.responses[j]);
    }
    filter_of_single_hit(after.responses, response_to(owner), at);
}

/// Whether the averages and the success rate are the ones that follow from the
/// stored responses.
pub open spec fn statistics_are_current(ledger: Ledger) -> bool {
    ledger.responses.len() > 0 ==> ledger.stats == ledger.refreshed_stats(ledger.stats.last_updated)
}

/// After a proof was recorded or a verification outcome was applied, the
/// averages and the success rate follow from the stored responses.
pub proof fn settlement_renews_statistics(before: Ledger, op: Operation)
    requires
        before.rejection(op) is None,
        op is SubmitProof || op is VerifyProof,
    ensures
        statistics_are_current(before.step(op)),
        before.step(op).responses.len() > 0,
{
    match op {
        Operation::SubmitProof { response, now } => {
            first_hit_is_least(before.responses, response_with(response.id));
        },
        Operation::VerifyProof { proof_id, result, now } => {
            first_hit_is_least(before.responses, response_with(proof_id));
        },
        _ => {},
    }
}

/// Statistics that follow from the stored responses keep doing so, whatever
/// operation is attempted: the statistics are a cache that can always be
/// derived anew.
pub proof fn statistics_stay_current(before: Ledger, op: Operation)
    requires
        statistics_are_current(before),
    ensures
        statistics_are_current(before.step(op)),
{
    if before.rejection(op) is None {
        match op {
            Operation::SubmitProof { response, now } => {
                settlement_renews_statistics(before, op);
            },
            Operation::VerifyProof { proof_id, result, now } => {
                settlement_renews_statistics(before, op);
            },
            _ => {},
        }
    }
}

// ----- reputation -----

/// Whether the reputation of `prover` is the one that follows from its
/// counters: the share of its proofs that succeeded, and zero without proofs.
pub open spec fn reputation_is_current(prover: ProverProfile) -> bool {
    prover.reputation_score == reputation_of(prover.successful_proofs, prover.total_proofs)
}

/// The reputation that follows from the counters is `successful / total`, which
/// reads as the percentage `successful / total * 100`; it is zero for a prover
/// without proofs.
pub proof fn reputation_is_share_of_successes(successful: u64, total: u64)
    ensures
        total > 0 ==> reputation_of(successful, total).top() == successful && reputation_of(
            successful,
            total,
        ).bottom() == total,
        total > 0 ==> reputation_of(successful, total).percent_hundredths() == (20000 * successful
            + total) / (2 * total),
        total == 0 ==> reputation_of(successful, total).top() == 0,
        total == 0 ==> reputation_of(successful, total).percent_hundredths() == 0,
{
    if total == 0 {
        let r = reputation_of(successful, total);
        assert(r.top() == 0 && r.bottom() == 1);
        assert((20000 * r.top() + r.bottom()) / (2 * r.bottom()) == 1int / 2int);
    }
}

/// Changing the prover `id` leaves every other prover as it was.
pub proof fn provers_with_changes_one(
    ledger: Ledger,
    id: Seq<char>,
    change: spec_fn(ProverProfile) -> ProverProfile,
    other: Seq<char>,
)
    requires
        forall|p: ProverProfile| (#[trigger] change(p)).id == p.id,
    ensures
        first_hit(ledger.provers_with(id, change), prover_with(other)) == ledger.prover_index(other),
        ledger.prover_index(other) matches Some(i) ==> ledger.provers_with(id, change)[i] == if other
            == id {
            change(ledger.provers[i])
        } else {
            ledger.provers[i]
        },
{
    let after = ledger.provers_with(id, change);
    first_hit_is_least(ledger.provers, prover_with(id));
    first_hit_is_least(ledger.provers, prover_with(other));
    assert forall|j: int| 0 <= j < ledger.provers.len() implies prover_with(other)(
        #[trigger] ledger.provers[j],
    ) == prover_with(other)(after[j]) by {}
    first_hit_agrees(ledger.provers, after, prover_with(other));
}

/// After a proof was recorded, the reputation of the prover that submitted it,
/// if it is registered, follows from its counters; and where the counters had
/// room, the prover has one more proof and one more success.
pub proof fn settlement_renews_reputation(before: Ledger, response: ProofResponse, now: u64)
    requires
        before.submit_proof_error(response) is None,
        before.prover(response.prover_id@) is Some,
    ensures
        ({
            let old_profile = before.prover(response.prover_id@).unwrap();
            let new_profile = before.submit_proof(response, now).prover(response.prover_id@);
            &&& new_profile matches Some(p) && reputation_is_current(p) && (before.has_room_for(
                response,
            ) ==> p.total_proofs == old_profile.total_proofs + 1 && p.successful_proofs
                == old_profile.successful_proofs + 1)
        }),
{
    provers_with_changes_one(
        before,
        response.prover_id@,
        |p: ProverProfile| credited(p),
        response.prover_id@,
    );
}

/// Once a proof of a registered prover was recorded, the reputation of that
/// prover follows from its counters, whatever operations are attempted
/// afterwards and in whatever order.
pub proof fn reputation_is_current_ever_after(
    before: Ledger,
    response: ProofResponse,
    now: u64,
    later: Seq<Operation>,
)
    requires
        before.submit_proof_error(response) is None,
        before.prover(response.prover_id@) is Some,
    ensures
        before.submit_proof(response, now).run(later).prover(response.prover_id@) matches Some(p)
            && reputation_is_current(p),
{
    settlement_renews_reputation(before, response, now);
    reputation_stays_current_along(
        before.submit_proof(response, now),
        later,
        response.prover_id@,
    );
}

/// After a verification outcome was applied, the prover of the verified proof,
/// if it is registered, has lost one success if the proof was invalid and it
/// had one to lose, its count of successes never going below zero; and its
/// reputation follows from its counters.
pub proof fn verification_renews_reputation(
    before: Ledger,
    proof_id: u128,
    result: VerificationResult,
    now: u64,
)
    requires
        before.verify_proof_error(proof_id) is None,
        before.prover(before.responses[before.response_index(proof_id).unwrap()].prover_id@) is Some,
    ensures
        ({
            let id = before.responses[before.response_index(proof_id).unwrap()].prover_id@;
            let old_profile = before.prover(id).unwrap();
            let new_profile = before.verify_proof(proof_id, result, now).prover(id);
            &&& new_profile matches Some(p) && reputation_is_current(p) && p.total_proofs
                == old_profile.total_proofs && p.successful_proofs == if result.valid
                || old_profile.successful_proofs == 0 {
                old_profile.successful_proofs as int
            } else {
                old_profile.successful_proofs - 1
            }
        }),
{
    let id = before.responses[before.response_index(proof_id).unwrap()].prover_id@;
    provers_with_changes_one(
        before,
        id,
        |p: ProverProfile| assessed(p, result.valid),
        id,
    );
}

/// A reputation that follows from the counters keeps doing so, whatever
/// operation is attempted.
pub proof fn reputation_stays_current(before: Ledger, op: Operation, id: Seq<char>)
    requires
        before.prover(id) matches Some(p) && reputation_is_current(p),
    ensures
        before.step(op).prover(id) matches Some(p) && reputation_is_current(p),
{
    if before.rejection(op) is None {
        match op {
            Operation::RegisterProver { profile } => {
                first_hit_after_push(before.provers, profile, prover_with(id));
                first_hit_is_least(before.provers, prover_with(id));
            },
            Operation::SubmitProof { response, now } => {
                provers_with_changes_one(
                    before,
                    response.prover_id@,
                    |p: ProverProfile| credited(p),
                    id,
                );
            },
            Operation::VerifyProof { proof_id, result, now } => {
                let owner = before.responses[before.response_index(proof_id).unwrap()].prover_id@;
                provers_with_changes_one(
                    before,
                    owner,
                    |p: ProverProfile| assessed(p, result.valid),
                    id,
                );
            },
            _ => {},
        }
    }
}

/// Whatever operations are attempted in whatever order, a reputation that
/// follows from the counters keeps doing so.
pub proof fn reputation_stays_current_along(before: Ledger, ops: Seq<Operation>, id: Seq<char>)
    requires
        before.prover(id) matches Some(p) && reputation_is_current(p),
    ensures
        before.run(ops).prover(id) matches Some(p) && reputation_is_current(p),
    decreases ops.len(),
{
    if ops.len() > 0 {
        reputation_stays_current_along(before, ops.drop_last(), id);
        reputation_stays_current(before.run(ops.drop_last()), ops.last(), id);
    }
}

} // verus!
