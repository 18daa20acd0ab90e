//! Ranking records: a stable sort, stated as a function on sequences.
//!
//! A ranking is built by taking the records in the order in which they came and
//! putting each behind the last record that it does not strictly precede.
//! Records that tie therefore keep the order in which they came.

use crate::ratio::Ratio;
use crate::types::{Bid, ProverProfile};
use vstd::prelude::*;

verus! {

/// Where `x` goes in the ranking `s`: behind the last element that `x` does not
/// strictly precede.
pub open spec fn rank_position<T>(s: Seq<T>, x: T, before: spec_fn(T, T) -> bool) -> int
    decreases s.len(),
{
    if s.len() == 0 {
        0
    } else if before(x, s.last()) {
        rank_position(s.drop_last(), x, before)
    } else {
        s.len() as int
    }
}

/// The ranking `s` with `x` put in its place.
pub open spec fn insert_ranked<T>(s: Seq<T>, x: T, before: spec_fn(T, T) -> bool) -> Seq<T> {
    s.insert(rank_position(s, x, before), x)
}

/// The elements of `s` ranked by `before`; elements that tie keep their order.
pub open spec fn ranked<T>(s: Seq<T>, before: spec_fn(T, T) -> bool) -> Seq<T>
    decreases s.len(),
{
    if s.len() == 0 {
        s
    } else {
        insert_ranked(ranked(s.drop_last(), before), s.last(), before)
    }
}

/// Whether no element of `s` strictly precedes an element that stands before it.
pub open spec fn is_ranked<T>(s: Seq<T>, before: spec_fn(T, T) -> bool) -> bool {
    forall|i: int, j: int| 0 <= i < j < s.len() ==> !before(#[trigger] s[j], #[trigger] s[i])
}

/// The first `count` elements of `s`, and all of `s` where it has fewer.
pub open spec fn top<T>(s: Seq<T>, count: nat) -> Seq<T> {
    if count < s.len() {
        s.take(count as int)
    } else {
        s
    }
}

/// Whether the bid `a` ranks strictly before the bid `b`: it is cheaper, or as
/// cheap and estimated to be quicker.
pub open spec fn bid_precedes(a: Bid, b: Bid) -> bool {
    a.price < b.price || (a.price == b.price && a.estimated_time < b.estimated_time)
}

/// The order in which bids are ranked.
pub open spec fn bid_order() -> spec_fn(Bid, Bid) -> bool {
    |a: Bid, b: Bid| bid_precedes(a, b)
}

/// Whether the prover `a` ranks strictly before the prover `b`: its reputation is
/// higher, or as high with more successful proofs.
pub open spec fn prover_precedes(a: ProverProfile, b: ProverProfile) -> bool {
    b.reputation_score.lt(a.reputation_score) || (b.reputation_score.same_value(
        a.reputation_score,
    ) && b.successful_proofs < a.successful_proofs)
}

/// The order in which provers are ranked.
pub open spec fn prover_order() -> spec_fn(ProverProfile, ProverProfile) -> bool {
    |a: ProverProfile, b: ProverProfile| prover_precedes(a, b)
}

/// The place of `x` in `s` is a position of `s`; `x` strictly precedes every
/// element from that place on, and does not strictly precede the element just
/// before it.
pub proof fn rank_position_splits<T>(s: Seq<T>, x: T, before: spec_fn(T, T) -> bool)
    ensures
        0 <= rank_position(s, x, before) <= s.len(),
        forall|m: int| rank_position(s, x, before) <= m < s.len() ==> before(x, #[trigger] s[m]),
        rank_position(s, x, before) > 0 ==> !before(x, s[rank_position(s, x, before) - 1]),
    decreases s.len(),
{
    if s.len() > 0 && before(x, s.last()) {
        rank_position_splits(s.drop_last(), x, before);
        assert forall|m: int| rank_position(s, x, before) <= m < s.len() implies before(
            x,
            #[trigger] s[m],
        ) by {
            if m < s.len() - 1 {
                assert(s.drop_last()[m] == s[m]);
            }
        }
    }
}

/// Ranking neither adds nor drops a record.
pub proof fn ranked_is_permutation<T>(s: Seq<T>, before: spec_fn(T, T) -> bool)
    ensures
        ranked(s, before).to_multiset() == s.to_multiset(),
        ranked(s, before).len() == s.len(),
    decreases s.len(),
{
    broadcast use vstd::seq_lib::to_multiset_insert, vstd::seq_lib::to_multiset_build;

    if s.len() > 0 {
        let rest = ranked(s.drop_last(), before);
        ranked_is_permutation(s.drop_last(), before);
        rank_position_splits(rest, s.last(), before);
        assert(s.drop_last().push(s.last()) =~= s);
    }
}

/// Under an order that is asymmetric and whose complement is transitive, a
/// ranking is sorted: no record strictly precedes one that stands before it.
pub proof fn ranked_is_sorted<T>(s: Seq<T>, before: spec_fn(T, T) -> bool)
    requires
        forall|a: T, b: T| #[trigger] before(a, b) ==> !before(b, a),
        forall|a: T, b: T, c: T|
            !(#[trigger] before(a, b)) && !(#[trigger] before(b, c)) ==> !before(a, c),
    ensures
        is_ranked(ranked(s, before), before),
    decreases s.len(),
{
    if s.len() > 0 {
        let rest = ranked(s.drop_last(), before);
        let x = s.last();
        let p = rank_position(rest, x, before);
        let out = ranked(s, before);
        ranked_is_sorted(s.drop_last(), before);
        rank_position_splits(rest, x, before);
        assert forall|i: int, j: int| 0 <= i < j < out.len() implies !before(
            #[trigger] out[j],
            #[trigger] out[i],
        ) by {
            if j < p {
                assert(out[i] == rest[i] && out[j] == rest[j]);
            } else if j == p {
                assert(out[j] == x && out[i] == rest[i]);
                if i < p - 1 {
                    assert(!before(rest[p - 1], rest[i]));
                    assert(!before(x, rest[p - 1]));
                }
            } else if i < p {
                assert(out[i] == rest[i] && out[j] == rest[j - 1]);
            } else if i == p {
                assert(out[i] == x && out[j] == rest[j - 1]);
                assert(before(x, rest[j - 1]));
            } else {
                assert(out[i] == rest[i - 1] && out[j] == rest[j - 1]);
            }
        }
    }
}

/// Ranked bids are sorted by price, and by estimated time where prices tie.
pub proof fn ranked_bids_are_sorted(bids: Seq<Bid>)
    ensures
        is_ranked(ranked(bids, bid_order()), bid_order()),
        ranked(bids, bid_order()).to_multiset() == bids.to_multiset(),
{
    ranked_is_sorted(bids, bid_order());
    ranked_is_permutation(bids, bid_order());
}

/// Ranked provers are sorted by falling reputation, and by falling count of
/// successful proofs where reputations tie.
pub proof fn ranked_provers_are_sorted(provers: Seq<ProverProfile>)
    ensures
        is_ranked(ranked(provers, prover_order()), prover_order()),
        ranked(provers, prover_order()).to_multiset() == provers.to_multiset(),
{
    let before = prover_order();
    assert forall|a: ProverProfile, b: ProverProfile, c: ProverProfile|
        !(#[trigger] before(a, b)) && !(#[trigger] before(b, c)) implies !before(a, c) by {
        let (ra, rb, rc) = (a.reputation_score, b.reputation_score, c.reputation_score);
        Ratio::order_is_total(rb, ra);
        Ratio::order_is_total(rc, rb);
        Ratio::order_is_total(rc, ra);
        Ratio::order_is_total(ra, rc);
        Ratio::order_is_transitive(ra, rb, rc);
        if rc.same_value(ra) {
            Ratio::order_is_transitive(rc, ra, rb);
            Ratio::order_is_transitive(rb, rc, ra);
        }
    }
    assert forall|a: ProverProfile, b: ProverProfile| #[trigger] before(a, b) implies !before(
        b,
        a,
    ) by {
        Ratio::order_is_total(a.reputation_score, b.reputation_score);
        Ratio::order_is_total(b.reputation_score, a.reputation_score);
    }
    ranked_is_sorted(provers, before);
    ranked_is_permutation(provers, before);
}

} // verus!
