//! A small wrapper around `std::collections::HashMap` with `u32` keys, giving
//! every operation a contract over the map's mathematical view.
use std::collections::HashMap;
use vstd::prelude::*;
use vstd::std_specs::hash::group_hash_axioms;

verus! {

/// A hash map keyed by 32-bit ids (handles, user ids, entity ids, model ids).
pub struct U32Map<V> {
    m: HashMap<u32, V>,
}

impl<V> View for U32Map<V> {
    type V = Map<u32, V>;

    closed spec fn view(&self) -> Map<u32, V> {
        self.m@
    }
}

impl<V> U32Map<V> {
    /// An empty map.
    pub fn new() -> (r: Self)
        ensures
            r@ == Map::<u32, V>::empty(),
    {
        broadcast use group_hash_axioms;

        U32Map { m: HashMap::new() }
    }

    /// Binds `k` to `v`, replacing any previous binding.
    pub fn insert(&mut self, k: u32, v: V)
        ensures
            final(self)@ == old(self)@.insert(k, v),
    {
        broadcast use group_hash_axioms;

        self.m.insert(k, v);
    }

    /// Looks the key up without changing the map.
    pub fn get(&self, k: u32) -> (r: Option<&V>)
        ensures
            match r {
                Some(v) => self@.contains_key(k) && *v == self@[k],
                None => !self@.contains_key(k),
            },
    {
        broadcast use group_hash_axioms;

        self.m.get(&k)
    }

    /// True when the key is bound.
    pub fn contains_key(&self, k: u32) -> (r: bool)
        ensures
            r == self@.contains_key(k),
    {
        broadcast use group_hash_axioms;

        self.m.contains_key(&k)
    }

    /// Unbinds the key and hands its value out, if it was bound.
    pub fn take(&mut self, k: u32) -> (r: Option<V>)
        ensures
            final(self)@ == old(self)@.remove(k),
            match r {
                Some(v) => old(self)@.contains_key(k) && v == old(self)@[k],
                None => !old(self)@.contains_key(k),
            },
    {
        broadcast use group_hash_axioms;

        self.m.remove(&k)
    }

    /// Drops every binding.
    pub fn clear(&mut self)
        ensures
            final(self)@ == Map::<u32, V>::empty(),
    {
        broadcast use group_hash_axioms;

        self.m.clear();
    }
}

} // verus!
