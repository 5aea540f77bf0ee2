//! The capacity-limited rendezvous map.
//!
//! [`NapMap`] wraps the unbounded map in a counted permit gate of capacity
//! `N >= 1`. An inserter takes one permit before it may write
//! ([`NapMap::try_begin_insert`]); when the write creates a fresh entry the
//! permit stays bound to that entry, when it replaces one the permit returns
//! to the capacity gate, and a removal that deletes an entry returns that entry's
//! permit. Lookups never touch the capacity gate. The well-formedness invariant
//! [`NapMap::wf`] accounts for every permit, so at most `N` inserters are
//! ever past the capacity gate at once.

use vstd::prelude::*;

use crate::model::empty_model;
use crate::model::insert_step;
use crate::model::lookup;
use crate::model::remove_step;
use crate::model::subscribe_step;
use crate::model::woken_by_insert;
use crate::model::ModelState;
use crate::unbounded::UnboundedNapMap;

verus! {

/// A rendezvous map whose gate applies backpressure to inserters: at most
/// `capacity` inserters can be past the capacity gate or have a live entry at once.
#[derive(Debug)]
pub struct NapMap<V> {
    /// The value table and waiter registry, shared with the unbounded variant.
    core: UnboundedNapMap<V>,
    /// The configured capacity `N >= 1`.
    capacity: usize,
    /// Permits neither held by an in-flight inserter nor bound to an entry.
    available: usize,
    /// Inserters that passed the capacity gate and have not finished their insert.
    inflight: usize,
}

/// Creates a rendezvous map that admits at most `capacity` concurrent
/// inserters and live entries. A capacity of zero is a programmer error and
/// is ruled out up front.
pub fn napmap<V: Copy>(capacity: usize) -> (m: NapMap<V>)
    requires
        capacity >= 1,
    ensures
        m.wf(),
        m.model() == empty_model::<V>(),
        m.capacity() == capacity,
        m.available() == capacity,
        m.inflight() == 0,
{
    NapMap::new(capacity)
}

impl<V: Copy> NapMap<V> {
    /// The value table and waiter registry as a [`ModelState`].
    pub closed spec fn model(self) -> ModelState<V> {
        self.core.model()
    }

    /// The configured capacity.
    pub closed spec fn capacity(self) -> int {
        self.capacity as int
    }

    /// Permits currently free for an inserter to take.
    pub closed spec fn available(self) -> int {
        self.available as int
    }

    /// Inserters currently past the capacity gate.
    pub closed spec fn inflight(self) -> int {
        self.inflight as int
    }

    /// Permit accounting: every unit of capacity is free, held by an
    /// in-flight inserter, or bound to a live table entry.
    pub open spec fn wf(self) -> bool {
        &&& self.capacity() >= 1
        &&& self.available() + self.inflight() + self.model().table.len() == self.capacity()
    }

    /// A fresh map with all `capacity` permits free.
    pub fn new(capacity: usize) -> (m: Self)
        requires
            capacity >= 1,
        ensures
            m.wf(),
            m.model() == empty_model::<V>(),
            m.capacity() == capacity,
            m.available() == capacity,
            m.inflight() == 0,
    {
        Self { core: UnboundedNapMap::new(), capacity, available: capacity, inflight: 0 }
    }

    /// The capacity gate step of an insert: take one permit if any is free. Succeeds
    /// exactly when a permit is available; on failure nothing changes and the
    /// host suspends the inserter until a permit is released. Lookups are
    /// independent of this gate.
    pub fn try_begin_insert(&mut self) -> (entered: bool)
        requires
            old(self).wf(),
        ensures
            final(self).wf(),
            final(self).model() == old(self).model(),
            final(self).capacity() == old(self).capacity(),
            entered == (old(self).available() >= 1),
            entered ==> final(self).available() == old(self).available() - 1
                && final(self).inflight() == old(self).inflight() + 1,
            !entered ==> *final(self) == *old(self),
    {
        if self.available >= 1 {
            self.available = self.available - 1;
            self.inflight = self.inflight + 1;
            true
        } else {
            false
        }
    }

    /// The write-and-broadcast step of an insert, taken by an inserter that
    /// holds a permit. Stores `v` under `k` and returns the waiter ids to
    /// wake, exactly as [`UnboundedNapMap::insert`] does. If the write
    /// created a fresh entry the permit stays bound to it; if it replaced an
    /// existing value the permit returns to the capacity gate.
    pub fn insert(&mut self, k: u64, v: V) -> (woken: Vec<u64>)
        requires
            old(self).wf(),
            old(self).inflight() >= 1,
        ensures
            final(self).wf(),
            final(self).model() == insert_step(old(self).model(), k, v),
            woken@ == woken_by_insert(old(self).model(), k),
            final(self).capacity() == old(self).capacity(),
            final(self).inflight() == old(self).inflight() - 1,
            final(self).available() == if old(self).model().table.contains_key(k) {
                old(self).available() + 1
            } else {
                old(self).available()
            },
    {
        proof {
            self.core.lemma_table_finite();
        }
        let was_present = match self.core.get(k) {
            Some(_) => true,
            None => false,
        };
        let woken = self.core.insert(k, v);
        self.inflight = self.inflight - 1;
        if was_present {
            self.available = self.available + 1;
        }
        woken
    }

    /// A snapshot read of the value table; never touches the permit gate.
    pub fn get(&self, k: u64) -> (r: Option<V>)
        ensures
            r == lookup(self.model(), k),
    {
        self.core.get(k)
    }

    /// The registration step of a suspended lookup, as in
    /// [`UnboundedNapMap::subscribe`]; never touches the permit gate.
    pub fn subscribe(&mut self, w: u64, k: u64) -> (r: Option<V>)
        requires
            old(self).wf(),
        ensures
            final(self).wf(),
            r == lookup(old(self).model(), k),
            final(self).model() == subscribe_step(old(self).model(), w, k),
            final(self).capacity() == old(self).capacity(),
            final(self).available() == old(self).available(),
            final(self).inflight() == old(self).inflight(),
    {
        self.core.subscribe(w, k)
    }

    /// Deletes and returns the entry for `k` if present, returning its permit
    /// to the capacity gate; wakes no waiter. On an absent key nothing changes.
    pub fn remove(&mut self, k: u64) -> (r: Option<V>)
        requires
            old(self).wf(),
        ensures
            final(self).wf(),
            r == lookup(old(self).model(), k),
            final(self).model() == remove_step(old(self).model(), k),
            final(self).capacity() == old(self).capacity(),
            final(self).inflight() == old(self).inflight(),
            final(self).available() == if old(self).model().table.contains_key(k) {
                old(self).available() + 1
            } else {
                old(self).available()
            },
    {
        proof {
            self.core.lemma_table_finite();
        }
        let r = self.core.remove(k);
        match r {
            Some(v) => {
                self.available = self.available + 1;
                Some(v)
            },
            None => None,
        }
    }

    /// The number of entries in the value table at this instant.
    pub fn len(&self) -> (n: usize)
        ensures
            n == self.model().table.len(),
    {
        self.core.len()
    }

    /// Whether the value table is empty at this instant.
    pub fn is_empty(&self) -> (r: bool)
        ensures
            r == (self.model().table.len() == 0),
    {
        self.core.is_empty()
    }
}

/// Bounded backpressure. Under the permit accounting invariant, the number
/// of inserters past the capacity gate never exceeds the capacity, and neither do the
/// free permits or the live entries; lookups carry no gate obligation at all,
/// so they are never blocked by it.
pub proof fn lemma_bounded_backpressure<V: Copy>(m: NapMap<V>)
    requires
        m.wf(),
    ensures
        0 <= m.inflight() <= m.capacity(),
        0 <= m.available() <= m.capacity(),
        m.model().table.len() <= m.capacity(),
{
}

} // verus!
