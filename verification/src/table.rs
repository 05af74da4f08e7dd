//! A key-value store of fixed capacity, the shape of the tables that the
//! kernel-side programs share with userspace.
//!
//! The store never grows past its capacity: an insertion of a new key into a
//! full store is dropped, and the caller is told so.

use vstd::prelude::*;
use std::collections::HashMap;

verus! {

broadcast use vstd::std_specs::hash::group_hash_axioms;

/// A map from 64-bit keys to values that holds at most `capacity` entries.
pub struct BoundedTable<V> {
    entries: HashMap<u64, V>,
    capacity: usize,
}

impl<V> View for BoundedTable<V> {
    type V = Map<u64, V>;

    closed spec fn view(&self) -> Map<u64, V> {
        self.entries@
    }
}

impl<V> BoundedTable<V> {
    /// The table holds no more entries than its capacity.
    pub closed spec fn wf(self) -> bool {
        self.entries@.len() <= self.capacity && self.entries@.dom().finite()
    }

    /// A well-formed table is finite and within its capacity.
    pub proof fn lemma_wf(self)
        requires
            self.wf(),
        ensures
            self@.dom().finite(),
            self@.len() <= self.spec_capacity(),
    {
    }

    /// The most entries the table holds.
    pub closed spec fn spec_capacity(self) -> usize {
        self.capacity
    }

    /// An empty table for at most `capacity` entries.
    pub fn new(capacity: usize) -> (t: Self)
        ensures
            t.wf(),
            t@ == Map::<u64, V>::empty(),
            t.spec_capacity() == capacity,
    {
        BoundedTable { entries: HashMap::new(), capacity }
    }

    /// The most entries the table holds.
    pub fn capacity(&self) -> (c: usize)
        ensures
            c == self.spec_capacity(),
    {
        self.capacity
    }

    /// Number of entries.
    pub fn len(&self) -> (n: usize)
        ensures
            n == self@.len(),
            self.wf() ==> n <= self.spec_capacity(),
    {
        self.entries.len()
    }

    /// The value stored under `key`, if any.
    pub fn get(&self, key: u64) -> (v: Option<&V>)
        ensures
            match v {
                Some(x) => self@.contains_key(key) && *x == self@[key],
                None => !self@.contains_key(key),
            },
    {
        self.entries.get(&key)
    }

    /// Whether `key` has an entry.
    pub fn contains_key(&self, key: u64) -> (b: bool)
        ensures
            b == self@.contains_key(key),
    {
        self.entries.contains_key(&key)
    }

    /// Stores `value` under `key`, replacing what was there. A new key is
    /// refused when the table is full: the table is then left as it was and
    /// `false` is returned.
    pub fn upsert(&mut self, key: u64, value: V) -> (stored: bool)
        requires
            old(self).wf(),
        ensures
            final(self).wf(),
            final(self).spec_capacity() == old(self).spec_capacity(),
            stored == (old(self)@.contains_key(key) || old(self)@.len() < old(
                self,
            ).spec_capacity()),
            stored ==> final(self)@ == old(self)@.insert(key, value),
            !stored ==> final(self)@ == old(self)@,
    {
        if self.entries.contains_key(&key) || self.entries.len() < self.capacity {
            self.entries.insert(key, value);
            true
        } else {
            false
        }
    }

    /// Removes the entry of `key` and returns its value, if there was one.
    pub fn remove(&mut self, key: u64) -> (v: Option<V>)
        requires
            old(self).wf(),
        ensures
            final(self).wf(),
            final(self).spec_capacity() == old(self).spec_capacity(),
            final(self)@ == old(self)@.remove(key),
            match v {
                Some(x) => old(self)@.contains_key(key) && x == old(self)@[key],
                None => !old(self)@.contains_key(key),
            },
    {
        self.entries.remove(&key)
    }
}

} // verus!
