//! Copying and comparing values by what they mean.

use vstd::prelude::*;
use crate::order::{in_order, in_order_enumerates, SortKey};
use crate::sorted_map::SortedMap;

verus! {

/// A value that can be copied and compared, both by its model.
pub trait Value: DeepView + Sized {
    /// Another value with the same model.
    fn duplicate(&self) -> (r: Self)
        ensures
            r.deep_view() == self.deep_view(),
    ;

    /// Whether both values have the same model.
    fn same(&self, other: &Self) -> (r: bool)
        ensures
            r == (self.deep_view() == other.deep_view()),
    ;
}

impl Value for () {
    fn duplicate(&self) -> (r: Self) {
    }

    fn same(&self, other: &Self) -> (r: bool) {
        true
    }
}

impl Value for bool {
    fn duplicate(&self) -> (r: Self) {
        *self
    }

    fn same(&self, other: &Self) -> (r: bool) {
        *self == *other
    }
}

impl Value for u8 {
    fn duplicate(&self) -> (r: Self) {
        *self
    }

    fn same(&self, other: &Self) -> (r: bool) {
        *self == *other
    }
}

impl Value for u16 {
    fn duplicate(&self) -> (r: Self) {
        *self
    }

    fn same(&self, other: &Self) -> (r: bool) {
        *self == *other
    }
}

impl Value for u32 {
    fn duplicate(&self) -> (r: Self) {
        *self
    }

    fn same(&self, other: &Self) -> (r: bool) {
        *self == *other
    }
}

impl Value for String {
    fn duplicate(&self) -> (r: Self) {
        self.clone()
    }

    fn same(&self, other: &Self) -> (r: bool) {
        *self == *other
    }
}

impl Value for [u8; 6] {
    fn duplicate(&self) -> (r: Self) {
        *self
    }

    fn same(&self, other: &Self) -> (r: bool) {
        let mut i: usize = 0;
        while i < 6
            invariant
                i <= 6,
                forall|j: int| 0 <= j < i ==> self@[j] == other@[j],
            decreases 6 - i,
        {
            if self[i] != other[i] {
                assert(self.deep_view()[i as int] != other.deep_view()[i as int]);
                return false;
            }
            i += 1;
        }
        assert(self.deep_view() =~= other.deep_view());
        true
    }
}

impl<T: Value> Value for Option<T> {
    fn duplicate(&self) -> (r: Self) {
        match self {
            Some(v) => Some(v.duplicate()),
            None => None,
        }
    }

    fn same(&self, other: &Self) -> (r: bool) {
        match (self, other) {
            (Some(a), Some(b)) => a.same(b),
            (None, None) => true,
            _ => false,
        }
    }
}

impl<T: Value> Value for Vec<T> {
    fn duplicate(&self) -> (r: Self) {
        let mut out: Vec<T> = Vec::new();
        let mut i: usize = 0;
        while i < self.len()
            invariant
                i <= self@.len(),
                out@.len() == i,
                forall|j: int|
                    0 <= j < i ==> (#[trigger] out@[j]).deep_view() == self@[j].deep_view(),
            decreases self@.len() - i,
        {
            out.push(self[i].duplicate());
            i += 1;
        }
        assert(out.deep_view() =~= self.deep_view());
        out
    }

    fn same(&self, other: &Self) -> (r: bool) {
        if self.len() != other.len() {
            assert(self.deep_view().len() != other.deep_view().len());
            return false;
        }
        let mut i: usize = 0;
        while i < self.len()
            invariant
                i <= self@.len(),
                self@.len() == other@.len(),
                forall|j: int|
                    0 <= j < i ==> (#[trigger] self@[j]).deep_view() == other@[j].deep_view(),
            decreases self@.len() - i,
        {
            if !self[i].same(&other[i]) {
                assert(self.deep_view()[i as int] != other.deep_view()[i as int]);
                return false;
            }
            i += 1;
        }
        assert(self.deep_view() =~= other.deep_view());
        true
    }
}

impl<K: SortKey + Value, V: Value> Value for SortedMap<K, V> {
    fn duplicate(&self) -> (r: Self) {
        let mut out: SortedMap<K, V> = SortedMap::new();
        let n = self.len();
        let ghost keys = in_order::<K>(self@.dom());
        proof {
            in_order_enumerates::<K>(self@.dom());
        }
        let mut i: usize = 0;
        while i < n
            invariant
                i <= n,
                n == keys.len(),
                keys == in_order::<K>(self@.dom()),
                out@.dom() == keys.take(i as int).to_set(),
                forall|k: K::V| #[trigger] out@.contains_key(k) ==> out@[k] == self@[k],
            decreases n - i,
        {
            out.insert(self.key_at(i).duplicate(), self.value_at(i).duplicate());
            proof {
                assert(keys.take(i + 1) =~= keys.take(i as int).push(keys[i as int]));
                keys.take(i as int).lemma_push_to_set_commute(keys[i as int]);
            }
            i += 1;
        }
        assert(keys.take(n as int) =~= keys);
        assert(out@ =~= self@);
        out
    }

    fn same(&self, other: &Self) -> (r: bool) {
        let n = self.len();
        let m = other.len();
        let ghost keys = in_order::<K>(self@.dom());
        let ghost other_keys = in_order::<K>(other@.dom());
        proof {
            in_order_enumerates::<K>(self@.dom());
            in_order_enumerates::<K>(other@.dom());
        }
        if n != m {
            return false;
        }
        let mut i: usize = 0;
        while i < n
            invariant
                i <= n,
                n == keys.len(),
                n == other_keys.len(),
                keys == in_order::<K>(self@.dom()),
                other_keys == in_order::<K>(other@.dom()),
                forall|j: int| 0 <= j < i ==> #[trigger] keys[j] == other_keys[j],
                forall|j: int| 0 <= j < i ==> self@[#[trigger] keys[j]] == other@[keys[j]],
            decreases n - i,
        {
            if !self.key_at(i).same(other.key_at(i)) || !self.value_at(i).same(other.value_at(i)) {
                return false;
            }
            i += 1;
        }
        proof {
            assert(keys =~= other_keys);
            assert forall|k: K::V| #[trigger] self@.contains_key(k) implies self@[k]
                == other@[k] by {
                assert(keys.to_set().contains(k));
                let j = choose|j: int| 0 <= j < keys.len() && keys[j] == k;
                assert(self@[keys[j]] == other@[keys[j]]);
            }
            assert(self@ =~= other@);
        }
        true
    }
}

impl<K: SortKey + Value, V: Value> Clone for SortedMap<K, V> {
    fn clone(&self) -> (r: Self)
        ensures
            r@ == self@,
    {
        self.duplicate()
    }
}

} // verus!
