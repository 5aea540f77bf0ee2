//! Ghost model of the rendezvous map.
//!
//! A map instance is abstracted as a [`ModelState`]: the value table (a map
//! from keys to values) together with the waiter registry (a map from keys to
//! the sequence of waiter ids currently parked on that key). The executable
//! operations in [`crate::unbounded`] and [`crate::bounded`] promise in their
//! contracts that they transform the model exactly as the step functions
//! below describe; the lemmas at the end state the coordination laws that
//! follow for whole traces of operations.

use vstd::prelude::*;

verus! {

/// Abstract state of one rendezvous map: the value table and the waiter
/// registry. Keys and waiter ids are plain integers; the host maps its own
/// key and task identities onto them.
pub struct ModelState<V> {
    /// The authoritative key-to-value mapping.
    pub table: Map<u64, V>,
    /// For each key, the ids of the tasks parked on it, in subscription order.
    pub waiters: Map<u64, Seq<u64>>,
}

/// One atomic operation on a rendezvous map, as seen by the model.
pub enum Op<V> {
    /// Store a value and broadcast to the key's waiters.
    Insert { k: u64, v: V },
    /// A task found the key absent and tries to park on it.
    Subscribe { w: u64, k: u64 },
    /// Delete the key's entry, waking nobody.
    Remove { k: u64 },
}

/// The model of a freshly constructed map: both tables empty.
pub open spec fn empty_model<V>() -> ModelState<V> {
    ModelState { table: Map::empty(), waiters: Map::empty() }
}

/// The waiters currently registered on key `k` (empty if none).
pub open spec fn registered<V>(s: ModelState<V>, k: u64) -> Seq<u64> {
    if s.waiters.contains_key(k) {
        s.waiters[k]
    } else {
        Seq::empty()
    }
}

/// What a snapshot read of the table returns for key `k`.
pub open spec fn lookup<V>(s: ModelState<V>, k: u64) -> Option<V> {
    if s.table.contains_key(k) {
        Some(s.table[k])
    } else {
        None
    }
}

/// The waiter ids an `insert` on key `k` wakes: exactly those registered at
/// the instant of the broadcast.
pub open spec fn woken_by_insert<V>(s: ModelState<V>, k: u64) -> Seq<u64> {
    registered(s, k)
}

/// State after `insert(k, v)`: the table holds `v` under `k`, and the key's
/// rendezvous is detached from the registry (its waiters have been woken).
pub open spec fn insert_step<V>(s: ModelState<V>, k: u64, v: V) -> ModelState<V> {
    ModelState { table: s.table.insert(k, v), waiters: s.waiters.remove(k) }
}

/// State after waiter `w` subscribes on key `k`. The subscription re-checks
/// the table: if a value is already present the waiter returns it at once and
/// the state is unchanged; otherwise `w` joins the key's waiter list.
pub open spec fn subscribe_step<V>(s: ModelState<V>, w: u64, k: u64) -> ModelState<V> {
    if s.table.contains_key(k) {
        s
    } else {
        ModelState { table: s.table, waiters: s.waiters.insert(k, registered(s, k).push(w)) }
    }
}

/// State after `remove(k)`: the table entry is gone; the registry is
/// untouched, so no waiter is resumed.
pub open spec fn remove_step<V>(s: ModelState<V>, k: u64) -> ModelState<V> {
    ModelState { table: s.table.remove(k), waiters: s.waiters }
}

/// The transition function of the model.
pub open spec fn apply<V>(s: ModelState<V>, op: Op<V>) -> ModelState<V> {
    match op {
        Op::Insert { k, v } => insert_step(s, k, v),
        Op::Subscribe { w, k } => subscribe_step(s, w, k),
        Op::Remove { k } => remove_step(s, k),
    }
}

/// Run a whole trace of operations, first operation first.
pub open spec fn apply_all<V>(s: ModelState<V>, ops: Seq<Op<V>>) -> ModelState<V>
    decreases ops.len(),
{
    if ops.len() == 0 {
        s
    } else {
        apply_all(apply(s, ops.first()), ops.drop_first())
    }
}

/// Whether `op` is an insert for key `k` — the only operation that detaches
/// key `k`'s rendezvous.
pub open spec fn is_insert_on<V>(op: Op<V>, k: u64) -> bool {
    match op {
        Op::Insert { k: k2, .. } => k2 == k,
        _ => false,
    }
}

/// A waiter that subscribes while its key is absent is registered afterwards,
/// behind every waiter already parked on that key.
pub proof fn lemma_subscribe_parks<V>(s: ModelState<V>, w: u64, k: u64)
    requires
        !s.table.contains_key(k),
    ensures
        registered(subscribe_step(s, w, k), k) == registered(s, k).push(w),
        registered(subscribe_step(s, w, k), k).contains(w),
{
    let after = registered(subscribe_step(s, w, k), k);
    assert(after[after.len() - 1] == w);
}

/// A completed insert is observed. A lookup that begins after `insert(k, v)`
/// has finished returns `v` — unless a later insert for `k` replaced it
/// first, in which case it returns that later value.
pub proof fn lemma_insert_is_observed<V>(s: ModelState<V>, k: u64, v: V, v2: V)
    ensures
        lookup(insert_step(s, k, v), k) == Some(v),
        lookup(insert_step(insert_step(s, k, v), k, v2), k) == Some(v2),
{
}

/// A single operation that is not an insert on `k` keeps every waiter of `k`
/// registered.
pub proof fn lemma_step_keeps_registered<V>(s: ModelState<V>, op: Op<V>, w: u64, k: u64)
    requires
        registered(s, k).contains(w),
        !is_insert_on(op, k),
    ensures
        registered(apply(s, op), k).contains(w),
{
    match op {
        Op::Insert { .. } => {
            assert(registered(apply(s, op), k) =~= registered(s, k));
        },
        Op::Subscribe { k: k2, .. } => {
            if !s.table.contains_key(k2) && k2 == k {
                let i = choose|i: int| 0 <= i < registered(s, k).len() && registered(s, k)[i] == w;
                assert(registered(apply(s, op), k)[i] == w);
            }
        },
        Op::Remove { .. } => {},
    }
}

/// No lost wake-up. A waiter registered on key `k` stays registered across
/// any trace that contains no insert for `k` — subscriptions by other tasks
/// and removals included — and is therefore among the ids woken by the next
/// `insert(k, _)`.
pub proof fn lemma_no_lost_wakeup<V>(s: ModelState<V>, ops: Seq<Op<V>>, w: u64, k: u64)
    requires
        registered(s, k).contains(w),
        forall|i: int| 0 <= i < ops.len() ==> !is_insert_on(#[trigger] ops[i], k),
    ensures
        registered(apply_all(s, ops), k).contains(w),
        woken_by_insert(apply_all(s, ops), k).contains(w),
    decreases ops.len(),
{
    if ops.len() > 0 {
        assert(!is_insert_on(ops[0], k));
        lemma_step_keeps_registered(s, ops.first(), w, k);
        assert(forall|i: int|
            0 <= i < ops.drop_first().len() ==> !is_insert_on(
                #[trigger] ops.drop_first()[i],
                k,
            ));
        lemma_no_lost_wakeup(apply(s, ops.first()), ops.drop_first(), w, k);
    }
}

/// No lost wake-up, end to end. A task that misses on key `k` and parks —
/// re-checking the table as it registers — is woken by the next insert for
/// `k`, however many other subscriptions, removals and inserts for other
/// keys happen in between.
pub proof fn lemma_wait_then_wake<V>(s: ModelState<V>, ops: Seq<Op<V>>, w: u64, k: u64)
    requires
        !s.table.contains_key(k),
        forall|i: int| 0 <= i < ops.len() ==> !is_insert_on(#[trigger] ops[i], k),
    ensures
        woken_by_insert(apply_all(subscribe_step(s, w, k), ops), k).contains(w),
{
    lemma_subscribe_parks(s, w, k);
    lemma_no_lost_wakeup(subscribe_step(s, w, k), ops, w, k);
}

/// Broadcast to all waiters. An insert for key `k` wakes exactly the waiters
/// registered on `k` at that moment — every one of them, and no other id —
/// and leaves no rendezvous for `k` behind, so no later subscriber can attach
/// to a consumed one.
pub proof fn lemma_broadcast_to_all_waiters<V>(s: ModelState<V>, k: u64, v: V)
    ensures
        woken_by_insert(s, k) == registered(s, k),
        forall|w: u64| registered(s, k).contains(w) <==> woken_by_insert(s, k).contains(w),
        !insert_step(s, k, v).waiters.contains_key(k),
{
}

/// Removal does not signal. `remove(k)` leaves the whole waiter registry
/// unchanged: a waiter parked on the removed key is still registered and is
/// woken by the next insert for that key.
pub proof fn lemma_remove_non_signalling<V>(s: ModelState<V>, k: u64, w: u64)
    ensures
        remove_step(s, k).waiters == s.waiters,
        registered(s, k).contains(w) ==> woken_by_insert(remove_step(s, k), k).contains(w),
{
}

} // verus!
