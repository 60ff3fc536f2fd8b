//! The order in which names, addresses and prefixes are kept.
//!
//! Every key of a map or a set has a rank, a sequence of integers. Keys are
//! ordered by comparing their ranks lexicographically, and two keys with the
//! same rank are the same key.

use vstd::prelude::*;

verus! {

/// `a` comes strictly before `b` in lexicographic order.
pub open spec fn lex_less(a: Seq<int>, b: Seq<int>) -> bool
    decreases a.len(),
{
    if b.len() == 0 {
        false
    } else if a.len() == 0 {
        true
    } else if a[0] != b[0] {
        a[0] < b[0]
    } else {
        lex_less(a.drop_first(), b.drop_first())
    }
}

/// Nothing comes before itself.
pub proof fn lex_less_irreflexive(a: Seq<int>)
    ensures
        !lex_less(a, a),
    decreases a.len(),
{
    if a.len() > 0 {
        lex_less_irreflexive(a.drop_first());
    }
}

/// Of two different sequences one comes before the other.
pub proof fn lex_less_total(a: Seq<int>, b: Seq<int>)
    ensures
        a == b || lex_less(a, b) || lex_less(b, a),
    decreases a.len(),
{
    if a.len() > 0 && b.len() > 0 && a[0] == b[0] {
        let x = a.drop_first();
        let y = b.drop_first();
        lex_less_total(x, y);
        assert(a =~= seq![a[0]] + x);
        assert(b =~= seq![b[0]] + y);
    } else if a.len() == 0 && b.len() == 0 {
        assert(a =~= b);
    }
}

/// The order is transitive.
pub proof fn lex_less_transitive(a: Seq<int>, b: Seq<int>, c: Seq<int>)
    requires
        lex_less(a, b),
        lex_less(b, c),
    ensures
        lex_less(a, c),
    decreases a.len(),
{
    if a.len() > 0 && b.len() > 0 && c.len() > 0 && a[0] == b[0] && b[0] == c[0] {
        lex_less_transitive(a.drop_first(), b.drop_first(), c.drop_first());
    }
}

/// The order of sequences of one integer.
pub proof fn lex_less_one(a: int, b: int)
    ensures
        lex_less(seq![a], seq![b]) == (a < b),
{
    reveal_with_fuel(lex_less, 2);
}

/// The order of pairs.
pub proof fn lex_less_pair(a: int, b: int, c: int, d: int)
    ensures
        lex_less(seq![a, b], seq![c, d]) == (a < c || (a == c && b < d)),
{
    assert(seq![a, b].drop_first() =~= seq![b]);
    assert(seq![c, d].drop_first() =~= seq![d]);
    lex_less_one(b, d);
}

/// The order of triples.
pub proof fn lex_less_triple(a: int, b: int, c: int, x: int, y: int, z: int)
    ensures
        lex_less(seq![a, b, c], seq![x, y, z]) == (a < x || (a == x && (b < y || (b == y && c
            < z)))),
{
    assert(seq![a, b, c].drop_first() =~= seq![b, c]);
    assert(seq![x, y, z].drop_first() =~= seq![y, z]);
    lex_less_pair(b, c, y, z);
}

/// A type whose values can be kept in order: a key of a map, a member of a set.
pub trait SortKey: DeepView + Sized {
    /// The place of a key in the order.
    spec fn rank(key: Self::V) -> Seq<int>;

    /// Keys with the same rank are equal.
    proof fn rank_injective(a: Self::V, b: Self::V)
        requires
            Self::rank(a) == Self::rank(b),
        ensures
            a == b,
    ;

    /// Whether this key comes before the other one.
    fn precedes(&self, other: &Self) -> (r: bool)
        ensures
            r == lex_less(Self::rank(self.deep_view()), Self::rank(other.deep_view())),
    ;
}

/// Key `a` comes before key `b`.
pub open spec fn key_less<K: SortKey>(a: K::V, b: K::V) -> bool {
    lex_less(K::rank(a), K::rank(b))
}

/// The keys stand in strictly increasing order.
pub open spec fn increasing<K: SortKey>(keys: Seq<K::V>) -> bool {
    forall|i: int, j: int|
        0 <= i < j < keys.len() ==> key_less::<K>(#[trigger] keys[i], #[trigger] keys[j])
}

/// The members of a finite set, from the least to the greatest.
pub open spec fn in_order<K: SortKey>(keys: Set<K::V>) -> Seq<K::V> {
    choose|s: Seq<K::V>| #[trigger] increasing::<K>(s) && s.to_set() == keys
}

/// Keys in increasing order are all different.
pub proof fn increasing_no_duplicates<K: SortKey>(s: Seq<K::V>)
    requires
        increasing::<K>(s),
    ensures
        s.no_duplicates(),
{
    assert forall|i: int, j: int| 0 <= i < s.len() && 0 <= j < s.len() && i != j implies s[i]
        != s[j] by {
        lex_less_irreflexive(K::rank(s[i]));
        if i < j {
            assert(key_less::<K>(s[i], s[j]));
        } else {
            assert(key_less::<K>(s[j], s[i]));
        }
    }
}

/// A set has only one increasing enumeration.
pub proof fn increasing_unique<K: SortKey>(a: Seq<K::V>, b: Seq<K::V>)
    requires
        increasing::<K>(a),
        increasing::<K>(b),
        a.to_set() == b.to_set(),
    ensures
        a == b,
    decreases a.len(),
{
    increasing_no_duplicates::<K>(a);
    increasing_no_duplicates::<K>(b);
    a.unique_seq_to_set();
    b.unique_seq_to_set();
    if a.len() == 0 {
        assert(a =~= b);
    } else {
        let la = a.last();
        let lb = b.last();
        assert(a.to_set().contains(la));
        assert(b.to_set().contains(lb));
        assert(b.contains(la) && a.contains(lb));
        if la != lb {
            let i = choose|i: int| 0 <= i < b.len() && b[i] == la;
            let j = choose|j: int| 0 <= j < a.len() && a[j] == lb;
            assert(key_less::<K>(b[i], b[b.len() - 1]));
            assert(key_less::<K>(a[j], a[a.len() - 1]));
            lex_less_transitive(K::rank(la), K::rank(lb), K::rank(la));
            lex_less_irreflexive(K::rank(la));
        }
        let ra = a.drop_last();
        let rb = b.drop_last();
        assert(increasing::<K>(ra)) by {
            assert forall|i: int, j: int| 0 <= i < j < ra.len() implies key_less::<K>(
                #[trigger] ra[i],
                #[trigger] ra[j],
            ) by {
                assert(key_less::<K>(a[i], a[j]));
            }
        }
        assert(increasing::<K>(rb)) by {
            assert forall|i: int, j: int| 0 <= i < j < rb.len() implies key_less::<K>(
                #[trigger] rb[i],
                #[trigger] rb[j],
            ) by {
                assert(key_less::<K>(b[i], b[j]));
            }
        }
        assert(ra.to_set() =~= a.to_set().remove(la)) by {
            assert forall|x: K::V| a.to_set().remove(la).contains(x) implies ra.to_set().contains(
                x,
            ) by {
                let i = choose|i: int| 0 <= i < a.len() && a[i] == x;
                assert(ra[i] == x);
            }
            assert forall|x: K::V| ra.to_set().contains(x) implies a.to_set().remove(la).contains(
                x,
            ) by {
                let i = choose|i: int| 0 <= i < ra.len() && ra[i] == x;
                assert(a[i] == x && a[i] != a[a.len() - 1]);
            }
        }
        assert(rb.to_set() =~= b.to_set().remove(lb)) by {
            assert forall|x: K::V| b.to_set().remove(lb).contains(x) implies rb.to_set().contains(
                x,
            ) by {
                let i = choose|i: int| 0 <= i < b.len() && b[i] == x;
                assert(rb[i] == x);
            }
            assert forall|x: K::V| rb.to_set().contains(x) implies b.to_set().remove(lb).contains(
                x,
            ) by {
                let i = choose|i: int| 0 <= i < rb.len() && rb[i] == x;
                assert(b[i] == x && b[i] != b[b.len() - 1]);
            }
        }
        increasing_unique::<K>(ra, rb);
        assert(a =~= ra.push(la));
        assert(b =~= rb.push(lb));
    }
}

/// An increasing sequence is the ordered enumeration of its members.
pub proof fn in_order_is<K: SortKey>(s: Seq<K::V>)
    requires
        increasing::<K>(s),
    ensures
        in_order::<K>(s.to_set()) == s,
{
    let t = in_order::<K>(s.to_set());
    assert(increasing::<K>(s) && s.to_set() == s.to_set());
    increasing_unique::<K>(t, s);
}

/// A key greater than all others can be put at the end.
proof fn increasing_push<K: SortKey>(s: Seq<K::V>, x: K::V)
    requires
        increasing::<K>(s),
        forall|i: int| 0 <= i < s.len() ==> key_less::<K>(#[trigger] s[i], x),
    ensures
        increasing::<K>(s.push(x)),
        s.push(x).to_set() == s.to_set().insert(x),
{
    let t = s.push(x);
    assert forall|i: int, j: int| 0 <= i < j < t.len() implies key_less::<K>(
        #[trigger] t[i],
        #[trigger] t[j],
    ) by {
        if j < s.len() {
            assert(key_less::<K>(s[i], s[j]));
        } else {
            assert(key_less::<K>(s[i], x));
        }
    }
    s.lemma_push_to_set_commute(x);
}

/// A key that is missing from an increasing sequence can be put in.
proof fn increasing_extend<K: SortKey>(s: Seq<K::V>, x: K::V) -> (r: Seq<K::V>)
    requires
        increasing::<K>(s),
        !s.contains(x),
    ensures
        increasing::<K>(r),
        r.to_set() == s.to_set().insert(x),
    decreases s.len(),
{
    if s.len() == 0 {
        increasing_push::<K>(s, x);
        s.push(x)
    } else {
        let last = s.last();
        lex_less_total(K::rank(last), K::rank(x));
        if K::rank(last) == K::rank(x) {
            K::rank_injective(last, x);
            assert(s.contains(last));
        }
        if key_less::<K>(last, x) {
            assert forall|i: int| 0 <= i < s.len() implies key_less::<K>(#[trigger] s[i], x) by {
                if i < s.len() - 1 {
                    assert(key_less::<K>(s[i], s[s.len() - 1]));
                    lex_less_transitive(K::rank(s[i]), K::rank(last), K::rank(x));
                }
            }
            increasing_push::<K>(s, x);
            s.push(x)
        } else {
            let head = s.drop_last();
            assert forall|i: int, j: int| 0 <= i < j < head.len() implies key_less::<K>(
                #[trigger] head[i],
                #[trigger] head[j],
            ) by {
                assert(key_less::<K>(s[i], s[j]));
            }
            assert forall|i: int| 0 <= i < head.len() implies #[trigger] head[i] != x by {
                assert(s.contains(s[i]));
            }
            let r = increasing_extend::<K>(head, x);
            assert forall|i: int| 0 <= i < r.len() implies key_less::<K>(#[trigger] r[i], last) by {
                assert(r.to_set().contains(r[i]));
                if r[i] != x {
                    assert(head.to_set().contains(r[i]));
                    let j = choose|j: int| 0 <= j < head.len() && head[j] == r[i];
                    assert(key_less::<K>(s[j], s[s.len() - 1]));
                }
            }
            increasing_push::<K>(r, last);
            assert(s =~= head.push(last));
            head.lemma_push_to_set_commute(last);
            assert(r.push(last).to_set() =~= s.to_set().insert(x));
            r.push(last)
        }
    }
}

/// Every finite set has an increasing enumeration.
pub proof fn in_order_enumerates<K: SortKey>(keys: Set<K::V>)
    requires
        keys.finite(),
    ensures
        increasing::<K>(in_order::<K>(keys)),
        in_order::<K>(keys).to_set() == keys,
    decreases keys.len(),
{
    if keys.len() == 0 {
        let none = Seq::<K::V>::empty();
        assert(increasing::<K>(none));
        assert(none.to_set() =~= keys);
    } else {
        let x = keys.choose();
        in_order_enumerates::<K>(keys.remove(x));
        let s = in_order::<K>(keys.remove(x));
        if s.contains(x) {
            assert(s.to_set().contains(x));
        }
        let r = increasing_extend::<K>(s, x);
        assert(r.to_set() =~= keys);
        assert(increasing::<K>(r) && r.to_set() == keys);
    }
}

/// The first `n` members of a set, counted from the least.
pub open spec fn visited<K: SortKey>(keys: Set<K::V>, n: int) -> Set<K::V> {
    in_order::<K>(keys).take(n).to_set()
}

/// Before the first step nothing has been visited.
pub proof fn visited_none<K: SortKey>(keys: Set<K::V>)
    ensures
        visited::<K>(keys, 0) == Set::<K::V>::empty(),
{
    assert(visited::<K>(keys, 0) =~= Set::<K::V>::empty());
}

/// Each step visits a member that was not visited before.
pub proof fn visited_next<K: SortKey>(keys: Set<K::V>, n: int)
    requires
        keys.finite(),
        0 <= n < in_order::<K>(keys).len(),
    ensures
        keys.contains(in_order::<K>(keys)[n]),
        !visited::<K>(keys, n).contains(in_order::<K>(keys)[n]),
        visited::<K>(keys, n + 1) == visited::<K>(keys, n).insert(in_order::<K>(keys)[n]),
{
    let all = in_order::<K>(keys);
    let front = all.take(n);
    in_order_enumerates::<K>(keys);
    increasing_no_duplicates::<K>(all);
    assert(all.to_set().contains(all[n]));
    if front.contains(all[n]) {
        let i = choose|i: int| 0 <= i < front.len() && front[i] == all[n];
        assert(all[i] == all[n]);
    }
    assert(all.take(n + 1) =~= front.push(all[n]));
    front.lemma_push_to_set_commute(all[n]);
}

/// In the end all members have been visited.
pub proof fn visited_all<K: SortKey>(keys: Set<K::V>)
    requires
        keys.finite(),
    ensures
        visited::<K>(keys, in_order::<K>(keys).len() as int) == keys,
{
    let all = in_order::<K>(keys);
    in_order_enumerates::<K>(keys);
    assert(all.take(all.len() as int) =~= all);
}

impl SortKey for u32 {
    open spec fn rank(key: u32) -> Seq<int> {
        seq![key as int]
    }

    proof fn rank_injective(a: u32, b: u32) {
        assert(Self::rank(a)[0] == a);
        assert(Self::rank(b)[0] == b);
    }

    fn precedes(&self, other: &Self) -> (r: bool) {
        proof {
            lex_less_one(*self as int, *other as int);
        }
        *self < *other
    }
}

} // verus!
