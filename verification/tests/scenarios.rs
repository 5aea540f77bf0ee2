//! End-to-end scenarios driven step by step: each test plays one interleaving
//! of lookups, subscriptions, inserts and removals against the rendezvous
//! core and checks the values returned and the waiter ids woken.

use napmap::unbounded;
use napmap::UnboundedNapMap;

#[test]
fn single_waiter_is_woken_and_reads_the_value() {
    // A task misses, parks on the key, an inserter stores 7: the waiter is
    // woken and its re-read returns 7.
    let mut m: UnboundedNapMap<u64> = UnboundedNapMap::new();
    assert_eq!(m.subscribe(1, 10), None);
    let woken = m.insert(10, 7);
    assert_eq!(woken, vec![1]);
    assert_eq!(m.get(10), Some(7));
}

#[test]
fn all_waiters_are_notified() {
    // Two tasks park on the same key; one insert wakes both, and each
    // re-read observes the inserted value.
    let mut m: UnboundedNapMap<u64> = UnboundedNapMap::new();
    assert_eq!(m.subscribe(1, 10), None);
    assert_eq!(m.subscribe(2, 10), None);
    let woken = m.insert(10, 7);
    assert_eq!(woken, vec![1, 2]);
    assert_eq!(m.get(10), Some(7));
    assert_eq!(m.get(10), Some(7));
}

#[test]
fn fast_path_returns_without_suspension() {
    // A lookup after a completed insert returns at once: the snapshot read
    // hits, and even the registration step returns the value instead of
    // parking, so a later insert finds nobody to wake.
    let mut m: UnboundedNapMap<u64> = UnboundedNapMap::new();
    let woken = m.insert(10, 1);
    assert_eq!(woken, Vec::<u64>::new());
    assert_eq!(m.get(10), Some(1));
    assert_eq!(m.subscribe(1, 10), Some(1));
    let woken = m.insert(10, 1);
    assert_eq!(woken, Vec::<u64>::new());
}

#[test]
fn reinsert_while_waiting_last_value_wins() {
    // A waiter parks; two inserts follow in quick succession. The first
    // broadcast wakes the waiter and the second wakes nobody; what the waiter
    // returns is whatever its own re-read finds, and a fresh lookup after
    // both inserts sees the second value.
    let mut m: UnboundedNapMap<u64> = UnboundedNapMap::new();
    assert_eq!(m.subscribe(1, 10), None);
    assert_eq!(m.insert(10, 1), vec![1]);
    assert_eq!(m.insert(10, 2), Vec::<u64>::new());
    assert_eq!(m.get(10), Some(2));

    // The other interleaving: the waiter re-reads between the two inserts
    // and observes the first value.
    let mut m: UnboundedNapMap<u64> = UnboundedNapMap::new();
    assert_eq!(m.subscribe(1, 10), None);
    assert_eq!(m.insert(10, 1), vec![1]);
    assert_eq!(m.get(10), Some(1));
    assert_eq!(m.insert(10, 2), Vec::<u64>::new());
    assert_eq!(m.get(10), Some(2));
}

#[test]
fn remove_does_not_wake_the_waiter() {
    // A waiter parks; a removal of its key returns nothing and wakes nobody;
    // the waiter is still registered and is woken by the next insert.
    let mut m: UnboundedNapMap<u64> = UnboundedNapMap::new();
    assert_eq!(m.subscribe(1, 10), None);
    assert_eq!(m.remove(10), None);
    let woken = m.insert(10, 9);
    assert_eq!(woken, vec![1]);
    assert_eq!(m.get(10), Some(9));
}

#[test]
fn remove_between_wake_and_reread_yields_nothing() {
    // The narrow error surface: the waiter is woken, but the entry is
    // removed before its re-read, so the lookup comes back empty.
    let mut m: UnboundedNapMap<u64> = UnboundedNapMap::new();
    assert_eq!(m.subscribe(1, 10), None);
    assert_eq!(m.insert(10, 5), vec![1]);
    assert_eq!(m.remove(10), Some(5));
    assert_eq!(m.get(10), None);
}

#[test]
fn waiters_on_distinct_keys_are_independent() {
    // An insert wakes only the waiters of its own key.
    let mut m: UnboundedNapMap<u64> = UnboundedNapMap::new();
    assert_eq!(m.subscribe(1, 10), None);
    assert_eq!(m.subscribe(2, 11), None);
    assert_eq!(m.insert(10, 7), vec![1]);
    assert_eq!(m.get(10), Some(7));
    assert_eq!(m.get(11), None);
    assert_eq!(m.insert(11, 8), vec![2]);
    assert_eq!(m.get(11), Some(8));
}

#[test]
fn consumed_rendezvous_is_gone() {
    // After a broadcast the key's rendezvous is detached: a fresh waiter
    // parks on a fresh rendezvous and only a fresh insert wakes it.
    let mut m: UnboundedNapMap<u64> = UnboundedNapMap::new();
    assert_eq!(m.subscribe(1, 10), None);
    assert_eq!(m.insert(10, 1), vec![1]);
    assert_eq!(m.remove(10), Some(1));
    assert_eq!(m.subscribe(2, 10), None);
    assert_eq!(m.insert(10, 2), vec![2]);
    assert_eq!(m.get(10), Some(2));
}

#[test]
fn insert_between_miss_and_subscribe_is_not_lost() {
    // The classic lost wake-up: a lookup misses, and the insert completes
    // before the task reaches the registry. The registration step re-checks
    // the table, returns the value, and the task never parks on a rendezvous
    // that nobody will broadcast.
    let mut m: UnboundedNapMap<u64> = UnboundedNapMap::new();
    assert_eq!(m.get(10), None);
    assert_eq!(m.insert(10, 5), Vec::<u64>::new());
    assert_eq!(m.subscribe(1, 10), Some(5));
    // Nothing was registered: a later insert finds nobody to wake.
    assert_eq!(m.insert(10, 6), Vec::<u64>::new());
}

#[test]
fn waiter_survives_interference_until_its_key_is_inserted() {
    // A parked waiter outlives an insert for another key, a second
    // subscription, and a removal of its own key; the next insert for its
    // key wakes it together with the newcomer.
    let mut m: UnboundedNapMap<u64> = UnboundedNapMap::new();
    assert_eq!(m.subscribe(1, 10), None);
    assert_eq!(m.insert(11, 3), Vec::<u64>::new());
    assert_eq!(m.subscribe(2, 10), None);
    assert_eq!(m.remove(10), None);
    let woken = m.insert(10, 4);
    assert_eq!(woken, vec![1, 2]);
    assert_eq!(m.get(10), Some(4));
}

#[test]
fn len_and_is_empty_track_the_table() {
    let mut m = unbounded::<u64>();
    assert!(m.is_empty());
    assert_eq!(m.len(), 0);
    m.insert(1, 100);
    m.insert(2, 200);
    assert_eq!(m.len(), 2);
    assert!(!m.is_empty());
    m.insert(2, 201);
    assert_eq!(m.len(), 2);
    assert_eq!(m.remove(1), Some(100));
    assert_eq!(m.len(), 1);
    assert_eq!(m.remove(1), None);
    assert_eq!(m.len(), 1);
}

#[test]
fn default_is_an_empty_map() {
    let m: UnboundedNapMap<u64> = Default::default();
    assert!(m.is_empty());
    assert_eq!(m.get(10), None);
}
