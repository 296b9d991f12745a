use vstd::prelude::*;
use vstd::hash_map::HashMapWithView;

verus! {

broadcast use vstd::std_specs::hash::group_hash_axioms;

/// A map keyed by pairs of 128-bit numbers.
#[verifier::reject_recursive_types(V)]
pub struct PairMap<V> {
    pub outer: HashMapWithView<u128, HashMapWithView<u128, V>>,
}

impl<V> PairMap<V> {
    /// The map's contents.
    pub open spec fn as_map(&self) -> Map<(u128, u128), V> {
        Map::new(
            |k: (u128, u128)| self.outer@.contains_key(k.0) && self.outer@[k.0]@.contains_key(k.1),
            |k: (u128, u128)| self.outer@[k.0]@[k.1],
        )
    }

    /// An empty map.
    pub fn new() -> (m: PairMap<V>)
        ensures
            m.as_map() == Map::<(u128, u128), V>::empty(),
    {
        let m = PairMap { outer: HashMapWithView::new() };
        assert(m.as_map() =~= Map::<(u128, u128), V>::empty());
        m
    }

    /// The value at `(a, b)`, if any.
    pub fn get(&self, a: u128, b: u128) -> (r: Option<&V>)
        ensures
            match r {
                Some(v) => self.as_map().contains_key((a, b)) && *v == self.as_map()[(a, b)],
                None => !self.as_map().contains_key((a, b)),
            },
    {
        match self.outer.get(&a) {
            None => None,
            Some(inner) => inner.get(&b),
        }
    }

    /// Sets the value at `(a, b)`.
    pub fn insert(&mut self, a: u128, b: u128, v: V)
        ensures
            final(self).as_map() == old(self).as_map().insert((a, b), v),
    {
        let mut inner = match self.outer.remove(&a) {
            Some(m) => m,
            None => HashMapWithView::new(),
        };
        inner.insert(b, v);
        self.outer.insert(a, inner);
        assert(self.as_map() =~= old(self).as_map().insert((a, b), v));
    }

    /// Removes the value at `(a, b)` and returns it, if there was one.
    pub fn remove(&mut self, a: u128, b: u128) -> (r: Option<V>)
        ensures
            final(self).as_map() == old(self).as_map().remove((a, b)),
            match r {
                Some(v) => old(self).as_map().contains_key((a, b)) && v == old(self).as_map()[(
                    a,
                    b,
                )],
                None => !old(self).as_map().contains_key((a, b)),
            },
    {
        match self.outer.remove(&a) {
            None => {
                assert(self.as_map() =~= old(self).as_map().remove((a, b)));
                None
            },
            Some(mut inner) => {
                let r = inner.remove(&b);
                self.outer.insert(a, inner);
                assert(self.as_map() =~= old(self).as_map().remove((a, b)));
                r
            },
        }
    }
}

} // verus!
