//! Maps that keep their entries in key order.

use vstd::prelude::*;
use crate::order::{in_order, in_order_is, increasing, increasing_no_duplicates, key_less,
    lex_less_irreflexive, lex_less_total, lex_less_transitive, visited, visited_all, visited_next,
    visited_none, SortKey};
use crate::value::Value;

verus! {

/// A map that is walked from its least key to its greatest.
///
/// The keys stand in strictly increasing order, so no key occurs twice.
#[derive(Debug, PartialEq, Eq)]
pub struct SortedMap<K: SortKey, V: DeepView> {
    keys: Vec<K>,
    vals: Vec<V>,
}

impl<K: SortKey, V: DeepView> View for SortedMap<K, V> {
    type V = Map<K::V, V::V>;

    closed spec fn view(&self) -> Map<K::V, V::V> {
        Map::new(
            |k: K::V| self.keys.deep_view().contains(k),
            |k: K::V| self.vals.deep_view()[self.keys.deep_view().index_of(k)],
        )
    }
}

impl<K: SortKey, V: DeepView> DeepView for SortedMap<K, V> {
    type V = Map<K::V, V::V>;

    open spec fn deep_view(&self) -> Map<K::V, V::V> {
        self@
    }
}

impl<K: SortKey, V: DeepView> SortedMap<K, V> {
    #[verifier::type_invariant]
    spec fn ordered(self) -> bool {
        &&& self.keys@.len() == self.vals@.len()
        &&& increasing::<K>(self.keys.deep_view())
    }

    proof fn view_at(self, i: int)
        requires
            self.ordered(),
            0 <= i < self.keys@.len(),
        ensures
            self@.contains_key(self.keys@[i].deep_view()),
            self@[self.keys@[i].deep_view()] == self.vals@[i].deep_view(),
            self.keys.deep_view().index_of(self.keys@[i].deep_view()) == i,
    {
        let ks = self.keys.deep_view();
        increasing_no_duplicates::<K>(ks);
        assert(ks[i] == self.keys@[i].deep_view());
        assert(ks.contains(ks[i]));
        assert(ks[ks.index_of(ks[i])] == ks[i]);
    }

    proof fn view_dom(self)
        requires
            self.ordered(),
        ensures
            self@.dom() == self.keys.deep_view().to_set(),
            in_order::<K>(self@.dom()) == self.keys.deep_view(),
            self@.dom().finite(),
            self@.dom().len() == self.keys@.len(),
    {
        let ks = self.keys.deep_view();
        assert(self@.dom() =~= ks.to_set());
        in_order_is::<K>(ks);
        increasing_no_duplicates::<K>(ks);
        ks.unique_seq_to_set();
    }

    /// An empty map.
    pub fn new() -> (m: Self)
        ensures
            m@ == Map::<K::V, V::V>::empty(),
    {
        let m = SortedMap { keys: Vec::new(), vals: Vec::new() };
        assert(m@ =~= Map::<K::V, V::V>::empty());
        m
    }

    /// How many keys the map holds.
    pub fn len(&self) -> (n: usize)
        ensures
            n == self@.dom().len(),
            n == in_order::<K>(self@.dom()).len(),
            self@.dom().finite(),
    {
        proof {
            use_type_invariant(self);
            self.view_dom();
        }
        self.keys.len()
    }

    /// Whether the map holds no key.
    pub fn is_empty(&self) -> (b: bool)
        ensures
            b == (self@ == Map::<K::V, V::V>::empty()),
    {
        proof {
            use_type_invariant(self);
            self.view_dom();
            if self.keys@.len() == 0 {
                assert(self@ =~= Map::<K::V, V::V>::empty());
            } else {
                self.view_at(0);
            }
        }
        self.keys.len() == 0
    }

    /// The place of `key`, or the place where it would be inserted.
    fn position(&self, key: &K) -> (r: (usize, bool))
        requires
            self.ordered(),
        ensures
            r.0 <= self.keys@.len(),
            r.1 == self@.contains_key(key.deep_view()),
            r.1 ==> r.0 < self.keys@.len() && self.keys@[r.0 as int].deep_view()
                == key.deep_view(),
            forall|j: int|
                0 <= j < r.0 ==> key_less::<K>(
                    #[trigger] self.keys.deep_view()[j],
                    key.deep_view(),
                ),
            !r.1 ==> forall|j: int|
                r.0 <= j < self.keys@.len() ==> key_less::<K>(
                    key.deep_view(),
                    #[trigger] self.keys.deep_view()[j],
                ),
    {
        let ghost ks = self.keys.deep_view();
        let ghost k = key.deep_view();
        let mut i: usize = 0;
        while i < self.keys.len() && self.keys[i].precedes(key)
            invariant
                i <= self.keys@.len(),
                ks == self.keys.deep_view(),
                k == key.deep_view(),
                forall|j: int| 0 <= j < i ==> key_less::<K>(#[trigger] ks[j], k),
            decreases self.keys@.len() - i,
        {
            assert(key_less::<K>(ks[i as int], k));
            i += 1;
        }
        if i < self.keys.len() {
            assert(!key_less::<K>(ks[i as int], k));
        }
        let found = i < self.keys.len() && !key.precedes(&self.keys[i]);
        proof {
            if found {
                lex_less_total(K::rank(ks[i as int]), K::rank(k));
                K::rank_injective(ks[i as int], k);
                assert(ks.contains(k));
            } else {
                assert forall|j: int| i <= j < ks.len() implies key_less::<K>(
                    k,
                    #[trigger] ks[j],
                ) by {
                    if j > i {
                        assert(key_less::<K>(ks[i as int], ks[j]));
                        lex_less_transitive(K::rank(k), K::rank(ks[i as int]), K::rank(ks[j]));
                    }
                }
                if ks.contains(k) {
                    let j = choose|j: int| 0 <= j < ks.len() && ks[j] == k;
                    lex_less_irreflexive(K::rank(k));
                    assert(key_less::<K>(ks[j], k) || key_less::<K>(k, ks[j]));
                }
            }
        }
        (i, found)
    }

    /// Whether `key` is there.
    pub fn contains_key(&self, key: &K) -> (b: bool)
        ensures
            b == self@.contains_key(key.deep_view()),
    {
        proof {
            use_type_invariant(self);
        }
        self.position(key).1
    }

    /// The value under `key`.
    pub fn get(&self, key: &K) -> (r: Option<&V>)
        ensures
            r is Some <==> self@.contains_key(key.deep_view()),
            r matches Some(v) ==> v.deep_view() == self@[key.deep_view()],
    {
        proof {
            use_type_invariant(self);
        }
        let (i, found) = self.position(key);
        if found {
            proof {
                self.view_at(i as int);
            }
            Some(&self.vals[i])
        } else {
            None
        }
    }

    /// The value under `key`, to be changed in place.
    pub fn get_mut(&mut self, key: &K) -> (r: Option<&mut V>)
        ensures
            r is Some <==> old(self)@.contains_key(key.deep_view()),
            r is None ==> final(self)@ == old(self)@,
            r matches Some(v) ==> {
                &&& v.deep_view() == old(self)@[key.deep_view()]
                &&& final(self)@ == old(self)@.insert(key.deep_view(), final(v).deep_view())
            },
    {
        proof {
            use_type_invariant(&*self);
        }
        let (i, found) = self.position(key);
        if found {
            proof {
                self.view_at(i as int);
                self.update_value(key.deep_view(), i as int);
            }
            Some(&mut self.vals[i])
        } else {
            None
        }
    }

    /// Exchanging the value at one place exchanges it in the map.
    proof fn update_value(self, k: K::V, i: int)
        requires
            self.ordered(),
            0 <= i < self.keys@.len(),
            self.keys@[i].deep_view() == k,
        ensures
            forall|m: Self, v: V|
                m.keys == self.keys && m.vals@ == #[trigger] self.vals@.update(i, v) ==> (
                #[trigger] m@) == self@.insert(k, v.deep_view()),
    {
        assert forall|m: Self, v: V|
            m.keys == self.keys && m.vals@ == #[trigger] self.vals@.update(i, v) implies (
        #[trigger] m@) == self@.insert(k, v.deep_view()) by {
            let ks = self.keys.deep_view();
            increasing_no_duplicates::<K>(ks);
            self.view_at(i);
            assert forall|x: K::V| #[trigger] self@.contains_key(x) && x != k implies m@[x]
                == self@[x] by {
                let j = ks.index_of(x);
                assert(ks.contains(x));
                assert(ks[j] == x);
                assert(ks[i] == k);
            }
            assert(m@ =~= self@.insert(k, v.deep_view()));
        }
    }

    /// Put `value` under `key`, in place of what stood there.
    pub fn insert(&mut self, key: K, value: V)
        ensures
            final(self)@ == old(self)@.insert(key.deep_view(), value.deep_view()),
    {
        proof {
            use_type_invariant(&*self);
        }
        let (i, found) = self.position(&key);
        let ghost before = *self;
        let ghost k = key.deep_view();
        let ghost v = value.deep_view();
        let mut taken = SortedMap::new();
        std::mem::swap(&mut taken, self);
        let SortedMap { mut keys, mut vals } = taken;
        if found {
            proof {
                before.update_value(k, i as int);
            }
            vals.set(i, value);
        } else {
            vals.insert(i, value);
            keys.insert(i, key);
            proof {
                before.insert_value(keys, vals, i as int);
            }
        }
        *self = SortedMap { keys, vals };
        proof {
            if found {
                assert(self.vals@ == before.vals@.update(i as int, value));
            }
        }
    }

    /// Putting a new key at its place keeps the order and adds it to the map.
    proof fn insert_value(self, keys: Vec<K>, vals: Vec<V>, i: int)
        requires
            self.ordered(),
            0 <= i <= self.keys@.len(),
            keys@.len() == self.keys@.len() + 1,
            keys@ == self.keys@.insert(i, keys@[i]),
            vals@.len() == keys@.len(),
            vals@ == self.vals@.insert(i, vals@[i]),
            forall|j: int|
                0 <= j < i ==> key_less::<K>(
                    #[trigger] self.keys.deep_view()[j],
                    keys@[i].deep_view(),
                ),
            forall|j: int|
                i <= j < self.keys@.len() ==> key_less::<K>(
                    keys@[i].deep_view(),
                    #[trigger] self.keys.deep_view()[j],
                ),
        ensures
            (SortedMap { keys, vals }).ordered(),
            (SortedMap { keys, vals })@ == self@.insert(
                keys@[i].deep_view(),
                vals@[i].deep_view(),
            ),
    {
        let m = SortedMap { keys, vals };
        let ks = self.keys.deep_view();
        let ns = keys.deep_view();
        let k = keys@[i].deep_view();
        assert(ns =~= ks.insert(i, k));
        assert(m.vals.deep_view() =~= self.vals.deep_view().insert(i, vals@[i].deep_view()));
        assert forall|a: int, b: int| 0 <= a < b < ns.len() implies key_less::<K>(
            #[trigger] ns[a],
            #[trigger] ns[b],
        ) by {
            let oa = if a < i { a } else { a - 1 };
            let ob = if b < i { b } else { b - 1 };
            if a != i {
                assert(ns[a] == ks[oa]);
            }
            if b != i {
                assert(ns[b] == ks[ob]);
            }
            if a != i && b != i {
                assert(key_less::<K>(ks[oa], ks[ob]));
            }
        }
        assert(m.ordered());
        assert forall|x: K::V| #[trigger] m@.contains_key(x) implies self@.insert(
            k,
            vals@[i].deep_view(),
        ).contains_key(x) && m@[x] == self@.insert(k, vals@[i].deep_view())[x] by {
            let a = ns.index_of(x);
            assert(ns.contains(x) && ns[a] == x);
            m.view_at(a);
            if a == i {
            } else {
                let oa = if a < i { a } else { a - 1 };
                self.view_at(oa);
                assert(ks[oa] == x);
                m.view_at(i);
                assert(x != k) by {
                    increasing_no_duplicates::<K>(ns);
                }
                assert(vals@[a] == self.vals@[oa]);
            }
        }
        assert forall|x: K::V| self@.insert(k, vals@[i].deep_view()).contains_key(
            x,
        ) implies #[trigger] m@.contains_key(x) by {
            if x == k {
                m.view_at(i);
            } else {
                let oa = ks.index_of(x);
                assert(ks.contains(x) && ks[oa] == x);
                let a = if oa < i { oa } else { oa + 1 };
                m.view_at(a);
            }
        }
        assert(m@ =~= self@.insert(k, vals@[i].deep_view()));
    }

    /// The value under `key`, which is put there first when the key is missing.
    pub fn get_or_insert(&mut self, key: K, value: V) -> (r: &mut V)
        ensures
            r.deep_view() == if old(self)@.contains_key(key.deep_view()) {
                old(self)@[key.deep_view()]
            } else {
                value.deep_view()
            },
            final(self)@ == old(self)@.insert(key.deep_view(), final(r).deep_view()),
    {
        proof {
            use_type_invariant(&*self);
        }
        let ghost before = *self;
        let ghost k = key.deep_view();
        let (i, found) = self.position(&key);
        if !found {
            let mut taken = SortedMap::new();
            std::mem::swap(&mut taken, self);
            let SortedMap { mut keys, mut vals } = taken;
            vals.insert(i, value);
            keys.insert(i, key);
            proof {
                before.insert_value(keys, vals, i as int);
            }
            *self = SortedMap { keys, vals };
            assert forall|w: V::V| #[trigger]
                before@.insert(k, value.deep_view()).insert(k, w) == before@.insert(k, w) by {
                assert(before@.insert(k, value.deep_view()).insert(k, w) =~= before@.insert(k, w));
            }
        }
        proof {
            self.view_at(i as int);
            self.update_value(k, i as int);
        }
        &mut self.vals[i]
    }

    /// Take `key` out of the map, with its value.
    pub fn remove(&mut self, key: &K) -> (r: Option<V>)
        ensures
            r is Some <==> old(self)@.contains_key(key.deep_view()),
            r matches Some(v) ==> v.deep_view() == old(self)@[key.deep_view()],
            final(self)@ == old(self)@.remove(key.deep_view()),
    {
        proof {
            use_type_invariant(&*self);
        }
        let (i, found) = self.position(key);
        let ghost before = *self;
        let ghost k = key.deep_view();
        if !found {
            assert(before@.remove(k) =~= before@);
            return None;
        }
        let mut taken = SortedMap::new();
        std::mem::swap(&mut taken, self);
        let SortedMap { mut keys, mut vals } = taken;
        keys.remove(i);
        let value = vals.remove(i);
        proof {
            before.view_at(i as int);
            before.remove_value(keys, vals, i as int);
        }
        *self = SortedMap { keys, vals };
        Some(value)
    }

    /// Dropping one place keeps the order and removes that key from the map.
    proof fn remove_value(self, keys: Vec<K>, vals: Vec<V>, i: int)
        requires
            self.ordered(),
            0 <= i < self.keys@.len(),
            keys@ == self.keys@.remove(i),
            vals@ == self.vals@.remove(i),
        ensures
            (SortedMap { keys, vals }).ordered(),
            (SortedMap { keys, vals })@ == self@.remove(self.keys@[i].deep_view()),
    {
        let m = SortedMap { keys, vals };
        let ks = self.keys.deep_view();
        let ns = keys.deep_view();
        let k = ks[i];
        assert forall|a: int, b: int| 0 <= a < b < ns.len() implies key_less::<K>(
            #[trigger] ns[a],
            #[trigger] ns[b],
        ) by {
            let oa = if a < i { a } else { a + 1 };
            let ob = if b < i { b } else { b + 1 };
            assert(ns[a] == ks[oa] && ns[b] == ks[ob]);
            assert(key_less::<K>(ks[oa], ks[ob]));
        }
        assert(m.ordered());
        increasing_no_duplicates::<K>(ks);
        assert forall|x: K::V| #[trigger] m@.contains_key(x) implies self@.remove(k).contains_key(x)
            && m@[x] == self@.remove(k)[x] by {
            let a = ns.index_of(x);
            assert(ns.contains(x) && ns[a] == x);
            m.view_at(a);
            let oa = if a < i { a } else { a + 1 };
            assert(ks[oa] == x && oa != i);
            self.view_at(oa);
            assert(vals@[a] == self.vals@[oa]);
        }
        assert forall|x: K::V| self@.remove(k).contains_key(x) implies #[trigger] m@.contains_key(
            x,
        ) by {
            let oa = ks.index_of(x);
            assert(ks.contains(x) && ks[oa] == x);
            let a = if oa < i { oa } else { oa - 1 };
            assert(oa != i);
            m.view_at(a);
            assert(ns[a] == x);
        }
        assert(m@ =~= self@.remove(k));
    }

    /// The `i`th key in increasing order.
    pub fn key_at(&self, i: usize) -> (k: &K)
        requires
            i < in_order::<K>(self@.dom()).len(),
        ensures
            k.deep_view() == in_order::<K>(self@.dom())[i as int],
            self@.contains_key(k.deep_view()),
    {
        proof {
            use_type_invariant(self);
            self.view_dom();
            self.view_at(i as int);
        }
        &self.keys[i]
    }

    /// The value under the `i`th key in increasing order.
    pub fn value_at(&self, i: usize) -> (v: &V)
        requires
            i < in_order::<K>(self@.dom()).len(),
        ensures
            v.deep_view() == self@[in_order::<K>(self@.dom())[i as int]],
    {
        proof {
            use_type_invariant(self);
            self.view_dom();
            self.view_at(i as int);
        }
        &self.vals[i]
    }

    /// Take the entry with the least key out of the map.
    pub fn pop_first(&mut self) -> (r: Option<(K, V)>)
        ensures
            r is None <==> old(self)@ == Map::<K::V, V::V>::empty(),
            r is None ==> final(self)@ == old(self)@,
            r matches Some(e) ==> {
                &&& in_order::<K>(old(self)@.dom()).len() > 0
                &&& e.0.deep_view() == in_order::<K>(old(self)@.dom())[0]
                &&& old(self)@.contains_key(e.0.deep_view())
                &&& e.1.deep_view() == old(self)@[e.0.deep_view()]
                &&& final(self)@ == old(self)@.remove(e.0.deep_view())
                &&& in_order::<K>(final(self)@.dom()) == in_order::<K>(
                    old(self)@.dom(),
                ).drop_first()
            },
    {
        proof {
            use_type_invariant(&*self);
            self.view_dom();
        }
        let ghost before = *self;
        if self.keys.len() == 0 {
            assert(before@ =~= Map::<K::V, V::V>::empty());
            return None;
        }
        let mut taken = SortedMap::new();
        std::mem::swap(&mut taken, self);
        let SortedMap { mut keys, mut vals } = taken;
        let key = keys.remove(0);
        let value = vals.remove(0);
        proof {
            before.view_at(0);
            before.remove_value(keys, vals, 0);
        }
        *self = SortedMap { keys, vals };
        proof {
            self.view_dom();
            assert(self.keys.deep_view() =~= before.keys.deep_view().drop_first());
        }
        Some((key, value))
    }
}

impl<K: SortKey, V: DeepView> Default for SortedMap<K, V> {
    fn default() -> (m: Self)
        ensures
            m@ == Map::<K::V, V::V>::empty(),
    {
        SortedMap::new()
    }
}

/// A set that is walked from its least member to its greatest.
#[derive(Debug, PartialEq, Eq)]
pub struct SortedSet<K: SortKey> {
    map: SortedMap<K, ()>,
}

impl<K: SortKey> View for SortedSet<K> {
    type V = Set<K::V>;

    closed spec fn view(&self) -> Set<K::V> {
        self.map@.dom()
    }
}

impl<K: SortKey> DeepView for SortedSet<K> {
    type V = Set<K::V>;

    open spec fn deep_view(&self) -> Set<K::V> {
        self@
    }
}

impl<K: SortKey> SortedSet<K> {
    /// An empty set.
    pub fn new() -> (s: Self)
        ensures
            s@ == Set::<K::V>::empty(),
    {
        let s = SortedSet { map: SortedMap::new() };
        assert(s@ =~= Set::<K::V>::empty());
        s
    }

    /// How many members the set has.
    pub fn len(&self) -> (n: usize)
        ensures
            n == self@.len(),
            n == in_order::<K>(self@).len(),
            self@.finite(),
    {
        self.map.len()
    }

    /// Whether the set has no member.
    pub fn is_empty(&self) -> (b: bool)
        ensures
            b == (self@ == Set::<K::V>::empty()),
    {
        proof {
            if self.map@.dom() == Set::<K::V>::empty() {
                assert(self.map@ =~= Map::<K::V, ()>::empty());
            }
        }
        self.map.is_empty()
    }

    /// Whether `key` is a member.
    pub fn contains(&self, key: &K) -> (b: bool)
        ensures
            b == self@.contains(key.deep_view()),
    {
        self.map.contains_key(key)
    }

    /// Make `key` a member.
    pub fn insert(&mut self, key: K)
        ensures
            final(self)@ == old(self)@.insert(key.deep_view()),
    {
        let ghost before = self.map@;
        self.map.insert(key, ());
        assert(self.map@.dom() =~= before.dom().insert(key.deep_view()));
    }

    /// Make `key` a member no more.
    pub fn remove(&mut self, key: &K)
        ensures
            final(self)@ == old(self)@.remove(key.deep_view()),
    {
        let ghost before = self.map@;
        self.map.remove(key);
        assert(self.map@.dom() =~= before.dom().remove(key.deep_view()));
    }

    /// The `i`th member in increasing order.
    pub fn at(&self, i: usize) -> (k: &K)
        requires
            i < in_order::<K>(self@).len(),
        ensures
            k.deep_view() == in_order::<K>(self@)[i as int],
    {
        self.map.key_at(i)
    }
}

impl<K: SortKey + Value, V: DeepView> SortedMap<K, V> {
    /// The keys.
    pub fn key_set(&self) -> (r: SortedSet<K>)
        ensures
            r@ == self@.dom(),
    {
        let n = self.len();
        let mut r: SortedSet<K> = SortedSet::new();
        let mut i: usize = 0;
        proof {
            visited_none::<K>(self@.dom());
        }
        while i < n
            invariant
                i <= n,
                self@.dom().finite(),
                n == in_order::<K>(self@.dom()).len(),
                r@ == visited::<K>(self@.dom(), i as int),
            decreases n - i,
        {
            proof {
                visited_next::<K>(self@.dom(), i as int);
            }
            r.insert(self.key_at(i).duplicate());
            i += 1;
        }
        proof {
            visited_all::<K>(self@.dom());
        }
        r
    }
}

impl<K: SortKey + Value> SortedSet<K> {
    /// The members in increasing order.
    pub fn members(&self) -> (r: Vec<K>)
        ensures
            r.deep_view() == in_order::<K>(self@),
    {
        let n = self.len();
        let mut r: Vec<K> = Vec::new();
        let mut i: usize = 0;
        while i < n
            invariant
                i <= n,
                n == in_order::<K>(self@).len(),
                r.deep_view() =~= in_order::<K>(self@).take(i as int),
            decreases n - i,
        {
            let ghost before = r.deep_view();
            let member = self.at(i).duplicate();
            r.push(member);
            assert(r.deep_view() =~= before.push(member.deep_view()));
            i += 1;
        }
        assert(in_order::<K>(self@).take(n as int) =~= in_order::<K>(self@));
        r
    }
}

impl<K: SortKey + Value> Value for SortedSet<K> {
    fn duplicate(&self) -> (r: Self) {
        SortedSet { map: self.map.duplicate() }
    }

    fn same(&self, other: &Self) -> (r: bool) {
        proof {
            if self.map@.dom() == other.map@.dom() {
                assert(self.map@ =~= other.map@);
            }
        }
        self.map.same(&other.map)
    }
}

impl<K: SortKey + Value> Clone for SortedSet<K> {
    fn clone(&self) -> (r: Self)
        ensures
            r@ == self@,
    {
        self.duplicate()
    }
}

} // verus!
