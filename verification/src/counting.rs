//! Facts about counting and searching in the arena of workers.

use crate::model::{first_unjoined, tally};
use crate::worker::Worker;
use vstd::prelude::*;

verus! {

/// Replacing one element changes a tally by what the old and the new
/// element contribute.
pub proof fn lemma_tally_update<T>(s: Seq<T>, p: spec_fn(T) -> bool, i: int, x: T)
    requires
        0 <= i < s.len(),
    ensures
        tally(s.update(i, x), p) + (if p(s[i]) { 1nat } else { 0nat })
            == tally(s, p) + (if p(x) { 1nat } else { 0nat }),
    decreases s.len(),
{
    if i == s.len() - 1 {
        assert(s.update(i, x).drop_last() =~= s.drop_last());
    } else {
        assert(s.update(i, x).drop_last() =~= s.drop_last().update(i, x));
        lemma_tally_update(s.drop_last(), p, i, x);
    }
}

/// A tally lies between zero and the length, and reaches either end
/// exactly when no element, or every element, satisfies the predicate.
pub proof fn lemma_tally_bounds<T>(s: Seq<T>, p: spec_fn(T) -> bool)
    ensures
        tally(s, p) <= s.len(),
        tally(s, p) == 0 <==> forall|i: int| 0 <= i < s.len() ==> !p(#[trigger] s[i]),
        tally(s, p) == s.len() <==> forall|i: int| 0 <= i < s.len() ==> p(#[trigger] s[i]),
    decreases s.len(),
{
    if s.len() > 0 {
        let front = s.drop_last();
        lemma_tally_bounds(front, p);
        assert(forall|i: int| 0 <= i < front.len() ==> front[i] == s[i]);
        if tally(s, p) == 0 {
            assert forall|i: int| 0 <= i < s.len() implies !p(#[trigger] s[i]) by {
                if i < front.len() {
                    assert(!p(front[i]));
                }
            }
        }
        if tally(s, p) == s.len() {
            assert forall|i: int| 0 <= i < s.len() implies p(#[trigger] s[i]) by {
                if i < front.len() {
                    assert(p(front[i]));
                }
            }
        }
        if forall|i: int| 0 <= i < s.len() ==> !p(#[trigger] s[i]) {
            assert forall|i: int| 0 <= i < front.len() implies !p(#[trigger] front[i]) by {
                assert(!p(s[i]));
            }
            assert(!p(s[s.len() - 1]));
        }
        if forall|i: int| 0 <= i < s.len() ==> p(#[trigger] s[i]) {
            assert forall|i: int| 0 <= i < front.len() implies p(#[trigger] front[i]) by {
                assert(p(s[i]));
            }
            assert(p(s[s.len() - 1]));
        }
    }
}

/// `first_unjoined` is the least index of a worker that has not been
/// joined, and the number of workers if there is none.
pub proof fn lemma_first_unjoined(workers: Seq<Worker>)
    ensures
        0 <= first_unjoined(workers) <= workers.len(),
        forall|i: int| 0 <= i < first_unjoined(workers) ==> (#[trigger] workers[i]).joined,
        first_unjoined(workers) < workers.len() ==> !workers[first_unjoined(workers)].joined,
    decreases workers.len(),
{
    if workers.len() > 0 && workers.first().joined {
        let rest = workers.drop_first();
        lemma_first_unjoined(rest);
        assert forall|i: int| 0 <= i < first_unjoined(workers) implies (#[trigger] workers[i]).joined by {
            if i > 0 {
                assert(rest[i - 1].joined);
            }
        }
    }
}

/// An index with no unjoined worker before it, and an unjoined worker at
/// it unless it is the number of workers, is `first_unjoined`.
pub proof fn lemma_first_unjoined_is(workers: Seq<Worker>, k: int)
    requires
        0 <= k <= workers.len(),
        forall|i: int| 0 <= i < k ==> (#[trigger] workers[i]).joined,
        k < workers.len() ==> !workers[k].joined,
    ensures
        first_unjoined(workers) == k,
{
    lemma_first_unjoined(workers);
    let f = first_unjoined(workers);
    if f < k {
        assert(workers[f].joined);
    } else if k < f {
        assert(workers[k].joined);
    }
}

} // verus!
