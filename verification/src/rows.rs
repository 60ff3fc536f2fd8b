//! What a filter takes out of a row, by the places that it takes.

use vstd::prelude::*;

verus! {

/// Whether `at` lists, in increasing order, just those of the places
/// `0 .. n` that `wanted` holds of.
pub open spec fn picks(at: Seq<int>, n: int, wanted: spec_fn(int) -> bool) -> bool {
    &&& forall|i: int, j: int| 0 <= i < j < at.len() ==> (#[trigger] at[i]) < (#[trigger] at[j])
    &&& forall|i: int| 0 <= i < at.len() ==> 0 <= #[trigger] at[i] < n && wanted(at[i])
    &&& forall|j: int| 0 <= j < n && #[trigger] wanted(j) ==> at.contains(j)
}

/// A filter keeps just the items that pass it, in their order.
pub proof fn filter_picks<A>(s: Seq<A>, pred: spec_fn(A) -> bool) -> (at: Seq<int>)
    ensures
        picks(at, s.len() as int, |j: int| pred(s[j])),
        s.filter(pred).len() == at.len(),
        forall|i: int| 0 <= i < at.len() ==> #[trigger] s.filter(pred)[i] == s[at[i]],
    decreases s.len(),
{
    reveal(Seq::filter);
    let wanted = |j: int| pred(s[j]);
    if s.len() == 0 {
        let at = Seq::<int>::empty();
        assert(picks(at, 0, wanted));
        at
    } else {
        let front = s.drop_last();
        let last = (s.len() - 1) as int;
        let before = filter_picks(front, pred);
        let wanted_before = |j: int| pred(front[j]);
        let at = if pred(s.last()) {
            before.push(last)
        } else {
            before
        };
        assert forall|i: int| 0 <= i < at.len() implies 0 <= #[trigger] at[i] < s.len() && wanted(
            at[i],
        ) by {
            if i < before.len() {
                assert(0 <= before[i] < front.len() && wanted_before(before[i]));
                assert(front[before[i]] == s[before[i]]);
            }
        }
        assert forall|j: int| 0 <= j < s.len() && #[trigger] wanted(j) implies at.contains(j) by {
            if j < last {
                assert(front[j] == s[j]);
                assert(wanted_before(j));
                assert(before.contains(j));
                let k = choose|k: int| 0 <= k < before.len() && before[k] == j;
                assert(at[k] == j);
            } else {
                assert(at[at.len() - 1] == j);
            }
        }
        assert forall|i: int, j: int| 0 <= i < j < at.len() implies (#[trigger] at[i]) < (
        #[trigger] at[j]) by {
            if j == before.len() {
                assert(0 <= before[i] < front.len());
            } else {
                assert(before[i] < before[j]);
            }
        }
        assert forall|i: int| 0 <= i < at.len() implies #[trigger] s.filter(pred)[i] == s[at[i]] by {
            if i < before.len() {
                assert(front.filter(pred)[i] == front[before[i]]);
            }
        }
        assert(picks(at, s.len() as int, wanted));
        at
    }
}

/// Places that are picked out of picked places.
pub proof fn picks_of_picks(
    at: Seq<int>,
    n: int,
    first: spec_fn(int) -> bool,
    inner: Seq<int>,
    second: spec_fn(int) -> bool,
)
    requires
        picks(at, n, first),
        picks(inner, at.len() as int, |k: int| second(at[k])),
    ensures
        picks(
            Seq::new(inner.len(), |i: int| at[inner[i]]),
            n,
            |j: int| first(j) && second(j),
        ),
{
    let w = |k: int| second(at[k]);
    let both = |j: int| first(j) && second(j);
    let all = Seq::new(inner.len(), |i: int| at[inner[i]]);
    assert forall|i: int, j: int| 0 <= i < j < all.len() implies (#[trigger] all[i]) < (
    #[trigger] all[j]) by {
        assert(inner[i] < inner[j]);
        assert(0 <= inner[i] < at.len() && 0 <= inner[j] < at.len());
        assert(at[inner[i]] < at[inner[j]]);
    }
    assert forall|i: int| 0 <= i < all.len() implies 0 <= #[trigger] all[i] < n && both(all[i]) by {
        assert(0 <= inner[i] < at.len() && w(inner[i]));
        assert(0 <= at[inner[i]] < n && first(at[inner[i]]));
    }
    assert forall|j: int| 0 <= j < n && #[trigger] both(j) implies all.contains(j) by {
        assert(first(j));
        let k = choose|k: int| 0 <= k < at.len() && at[k] == j;
        assert(w(k));
        let i = choose|i: int| 0 <= i < inner.len() && inner[i] == k;
        assert(all[i] == j);
    }
}

} // verus!
