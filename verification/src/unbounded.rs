//! The unbounded rendezvous map.
//!
//! [`UnboundedNapMap`] holds the value table and the waiter registry and
//! makes every rendezvous decision: whether a `get` can return at once,
//! which waiter ids an `insert` must wake, and what a `remove` may and may
//! not touch. Keys and waiter ids are plain integers; an async host interns
//! its own keys, parks each waiter id on its own one-shot signal, and wakes
//! the ids that [`UnboundedNapMap::insert`] hands back.

use std::collections::HashMap;
use vstd::prelude::*;

use crate::model::empty_model;
use crate::model::insert_step;
use crate::model::lookup;
use crate::model::remove_step;
use crate::model::subscribe_step;
use crate::model::woken_by_insert;
use crate::model::ModelState;

verus! {

broadcast use vstd::std_specs::hash::group_hash_axioms;

/// A rendezvous map without a capacity bound: inserts never wait.
#[derive(Debug)]
pub struct UnboundedNapMap<V> {
    /// The authoritative key-to-value table.
    table: HashMap<u64, V>,
    /// For each key with at least one parked task, the parked waiter ids in
    /// subscription order. The entry is detached as a whole by `insert`.
    waiters: HashMap<u64, Vec<u64>>,
}

/// Creates an unbounded rendezvous map. The amount of available memory is the
/// only implicit bound on its growth.
pub fn unbounded<V: Copy>() -> (m: UnboundedNapMap<V>)
    ensures
        m.model() == empty_model::<V>(),
{
    UnboundedNapMap::new()
}

impl<V: Copy> UnboundedNapMap<V> {
    /// The value table, abstractly.
    pub closed spec fn table_view(self) -> Map<u64, V> {
        self.table@
    }

    /// The waiter registry, abstractly: key to parked waiter ids.
    pub closed spec fn waiters_view(self) -> Map<u64, Seq<u64>> {
        self.waiters@.map_values(|l: Vec<u64>| l@)
    }

    /// The whole map as a [`ModelState`]; every contract below speaks of it.
    pub open spec fn model(self) -> ModelState<V> {
        ModelState { table: self.table_view(), waiters: self.waiters_view() }
    }

    /// A fresh map: no values, no waiters.
    pub fn new() -> (m: Self)
        ensures
            m.model() == empty_model::<V>(),
    {
        let m = Self { table: HashMap::new(), waiters: HashMap::new() };
        proof {
            assert(m.waiters_view() =~= Map::<u64, Seq<u64>>::empty());
        }
        m
    }

    /// Stores `v` under `k`, detaches the key's rendezvous, and returns the
    /// ids of every waiter parked on `k` at this instant — the host must wake
    /// exactly these. Afterwards no rendezvous for `k` remains, so no later
    /// subscriber can attach to a consumed one.
    pub fn insert(&mut self, k: u64, v: V) -> (woken: Vec<u64>)
        ensures
            final(self).model() == insert_step(old(self).model(), k, v),
            woken@ == woken_by_insert(old(self).model(), k),
    {
        let _ = self.table.insert(k, v);
        let woken = match self.waiters.remove(&k) {
            Some(l) => l,
            None => Vec::new(),
        };
        proof {
            assert(final(self).waiters_view() =~= old(self).waiters_view().remove(k));
        }
        woken
    }

    /// A snapshot read of the value table: the value stored under `k` at this
    /// instant, if any. Both the fast path of a lookup and the re-read after
    /// a wake-up are this one read, so what a woken waiter returns is exactly
    /// what the table holds when it resumes.
    pub fn get(&self, k: u64) -> (r: Option<V>)
        ensures
            r == lookup(self.model(), k),
    {
        match self.table.get(&k) {
            Some(v) => Some(*v),
            None => None,
        }
    }

    /// The registration step of a suspended lookup, taken after a miss. Under
    /// the registry lock it re-checks the table: if a value has appeared in
    /// the meantime it is returned and nothing is registered (the host must
    /// not park); otherwise waiter `w` joins the key's rendezvous, to be
    /// woken by the next `insert(k, _)`.
    pub fn subscribe(&mut self, w: u64, k: u64) -> (r: Option<V>)
        ensures
            r == lookup(old(self).model(), k),
            final(self).model() == subscribe_step(old(self).model(), w, k),
    {
        match self.table.get(&k) {
            Some(v) => Some(*v),
            None => {
                let mut l = match self.waiters.remove(&k) {
                    Some(l) => l,
                    None => Vec::new(),
                };
                l.push(w);
                let _ = self.waiters.insert(k, l);
                proof {
                    assert(final(self).waiters_view() =~= old(self).waiters_view().insert(
                        k,
                        woken_by_insert(old(self).model(), k).push(w),
                    ));
                }
                None
            },
        }
    }

    /// The value table always has finitely many entries: it is the view of a
    /// concrete hash table.
    pub proof fn lemma_table_finite(&self)
        ensures
            self.model().table.dom().finite(),
    {
        assert(self.table@.dom().finite());
    }

    /// Deletes and returns the entry for `k` if present. The waiter registry
    /// is left untouched: removal wakes nobody, and a waiter parked on `k`
    /// keeps waiting for the next insert.
    pub fn remove(&mut self, k: u64) -> (r: Option<V>)
        ensures
            r == lookup(old(self).model(), k),
            final(self).model() == remove_step(old(self).model(), k),
    {
        self.table.remove(&k)
    }

    /// The number of entries in the value table at this instant. Advisory
    /// under concurrent mutation.
    pub fn len(&self) -> (n: usize)
        ensures
            n == self.model().table.len(),
    {
        self.table.len()
    }

    /// Whether the value table is empty at this instant. Advisory under
    /// concurrent mutation.
    pub fn is_empty(&self) -> (r: bool)
        ensures
            r == (self.model().table.len() == 0),
    {
        self.table.is_empty()
    }
}

impl<V: Copy> Default for UnboundedNapMap<V> {
    /// Same as [`UnboundedNapMap::new`].
    fn default() -> (m: Self)
        ensures
            m.model() == empty_model::<V>(),
    {
        Self::new()
    }
}

} // verus!
