//! Finding records in a sequence by a key, and storing them under it.
//!
//! The stores of this crate are sequences in which a record is found by the
//! first position at which its key occurs, and stored either in the place of
//! the record that has its key or at the end.

use vstd::prelude::*;

verus! {

/// Whether `i` is the least index of `s` at which `hit` holds.
pub open spec fn is_first_hit<T>(s: Seq<T>, hit: spec_fn(T) -> bool, i: int) -> bool {
    &&& 0 <= i < s.len()
    &&& hit(s[i])
    &&& forall|j: int| 0 <= j < i ==> !hit(#[trigger] s[j])
}

/// The least index of `s` at which `hit` holds, if there is one.
pub open spec fn first_hit<T>(s: Seq<T>, hit: spec_fn(T) -> bool) -> Option<int> {
    if exists|i: int| is_first_hit(s, hit, i) {
        Some(choose|i: int| is_first_hit(s, hit, i))
    } else {
        None
    }
}

/// `s` with `x` stored at `at`, or appended where `at` is `None`.
pub open spec fn put<T>(s: Seq<T>, at: Option<int>, x: T) -> Seq<T> {
    match at {
        Some(i) => s.update(i, x),
        None => s.push(x),
    }
}

/// `hit` holds first at `i`, so that is where `first_hit` finds it.
pub proof fn first_hit_found<T>(s: Seq<T>, hit: spec_fn(T) -> bool, i: int)
    requires
        is_first_hit(s, hit, i),
    ensures
        first_hit(s, hit) == Some(i),
{
    let j = choose|j: int| is_first_hit(s, hit, j);
    if j < i {
        assert(!hit(s[j]));
    } else if i < j {
        assert(!hit(s[i]));
    }
}

/// `hit` holds nowhere in `s`, so `first_hit` finds nothing.
pub proof fn first_hit_missing<T>(s: Seq<T>, hit: spec_fn(T) -> bool)
    requires
        forall|j: int| 0 <= j < s.len() ==> !hit(#[trigger] s[j]),
    ensures
        first_hit(s, hit) is None,
{
}

/// What `first_hit` returns is the least index at which `hit` holds, and without
/// a result `hit` holds nowhere.
pub proof fn first_hit_is_least<T>(s: Seq<T>, hit: spec_fn(T) -> bool)
    ensures
        match first_hit(s, hit) {
            Some(i) => is_first_hit(s, hit, i),
            None => forall|j: int| 0 <= j < s.len() ==> !hit(#[trigger] s[j]),
        },
{
    if first_hit(s, hit) is None {
        assert forall|j: int| 0 <= j < s.len() implies !hit(#[trigger] s[j]) by {
            if hit(s[j]) {
                least_hit_exists(s, hit, j);
            }
        }
    }
}

proof fn least_hit_exists<T>(s: Seq<T>, hit: spec_fn(T) -> bool, j: int)
    requires
        0 <= j < s.len(),
        hit(s[j]),
    ensures
        exists|i: int| is_first_hit(s, hit, i),
    decreases j,
{
    if exists|k: int| 0 <= k < j && hit(#[trigger] s[k]) {
        let k = choose|k: int| 0 <= k < j && hit(#[trigger] s[k]);
        least_hit_exists(s, hit, k);
    } else {
        assert(is_first_hit(s, hit, j));
    }
}

/// Where two sequences agree on `hit` position by position, the first hit is at
/// the same place in both.
pub proof fn first_hit_agrees<T>(s: Seq<T>, t: Seq<T>, hit: spec_fn(T) -> bool)
    requires
        s.len() == t.len(),
        forall|j: int| 0 <= j < s.len() ==> hit(#[trigger] s[j]) == hit(t[j]),
    ensures
        first_hit(s, hit) == first_hit(t, hit),
{
    first_hit_is_least(s, hit);
    match first_hit(s, hit) {
        Some(i) => {
            assert(hit(s[i]) == hit(t[i]));
            assert forall|j: int| 0 <= j < i implies !hit(#[trigger] t[j]) by {
                assert(hit(s[j]) == hit(t[j]));
            }
            assert(is_first_hit(t, hit, i));
            first_hit_found(t, hit, i);
        },
        None => {
            assert forall|j: int| 0 <= j < t.len() implies !hit(#[trigger] t[j]) by {
                assert(hit(s[j]) == hit(t[j]));
            }
            first_hit_missing(t, hit);
        },
    }
}

/// Appending an element leaves an earlier first hit where it was; without one,
/// the new element is the first hit if it is a hit at all.
pub proof fn first_hit_after_push<T>(s: Seq<T>, x: T, hit: spec_fn(T) -> bool)
    ensures
        first_hit(s.push(x), hit) == if first_hit(s, hit) is Some {
            first_hit(s, hit)
        } else if hit(x) {
            Some(s.len() as int)
        } else {
            None
        },
{
    let t = s.push(x);
    first_hit_is_least(s, hit);
    match first_hit(s, hit) {
        Some(i) => {
            assert(t[i] == s[i]);
            assert forall|j: int| 0 <= j < i implies !hit(#[trigger] t[j]) by {
                assert(t[j] == s[j]);
            }
            assert(is_first_hit(t, hit, i));
            first_hit_found(t, hit, i);
        },
        None => {
            if hit(x) {
                assert(t[s.len() as int] == x);
                assert forall|j: int| 0 <= j < s.len() implies !hit(#[trigger] t[j]) by {
                    assert(t[j] == s[j]);
                }
                assert(is_first_hit(t, hit, s.len() as int));
                first_hit_found(t, hit, s.len() as int);
            } else {
                assert forall|j: int| 0 <= j < t.len() implies !hit(#[trigger] t[j]) by {
                    if j < s.len() {
                        assert(t[j] == s[j]);
                    }
                }
                first_hit_missing(t, hit);
            }
        },
    }
}

/// Storing `x` under its own key keeps every record of another key where it was
/// and makes `x` the record of its key.
pub proof fn put_keeps_others<T>(
    s: Seq<T>,
    x: T,
    own: spec_fn(T) -> bool,
    other: spec_fn(T) -> bool,
)
    requires
        own(x),
        !other(x),
        forall|j: int| 0 <= j < s.len() ==> !(own(#[trigger] s[j]) && other(s[j])),
    ensures
        first_hit(put(s, first_hit(s, own), x), other) == first_hit(s, other),
        first_hit(s, other) matches Some(i) ==> put(s, first_hit(s, own), x)[i] == s[i],
        put(s, first_hit(s, own), x).len() >= s.len(),
{
    first_hit_is_least(s, own);
    first_hit_is_least(s, other);
    match first_hit(s, own) {
        Some(i) => {
            let t = s.update(i, x);
            assert forall|j: int| 0 <= j < s.len() implies other(#[trigger] s[j]) == other(
                t[j],
            ) by {}
            first_hit_agrees(s, t, other);
        },
        None => {
            first_hit_after_push(s, x, other);
        },
    }
}

/// A sequence with one hit filters to that hit alone.
pub proof fn filter_of_single_hit<T>(s: Seq<T>, hit: spec_fn(T) -> bool, i: int)
    requires
        0 <= i < s.len(),
        hit(s[i]),
        forall|j: int| 0 <= j < s.len() && j != i ==> !hit(#[trigger] s[j]),
    ensures
        s.filter(hit) == seq![s[i]],
    decreases s.len(),
{
    reveal(Seq::filter);
    let rest = s.drop_last();
    if i == s.len() - 1 {
        assert forall|j: int| 0 <= j < rest.len() implies !hit(#[trigger] rest[j]) by {
            assert(rest[j] == s[j]);
        }
        rest.lemma_all_neg_filter_empty(hit);
        assert(rest.filter(hit).push(s[i]) =~= seq![s[i]]);
    } else {
        assert(rest[i] == s[i]);
        assert forall|j: int| 0 <= j < rest.len() && j != i implies !hit(#[trigger] rest[j]) by {
            assert(rest[j] == s[j]);
        }
        filter_of_single_hit(rest, hit, i);
    }
}

} // verus!
