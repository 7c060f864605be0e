//! The holder of the latest snapshot of one resource class. A publish replaces
//! the whole value; a read hands out the value of exactly one publish, tagged
//! with the number of that publish. Sharing between threads is the owner's
//! lock around the holder, one lock per resource class.

use vstd::prelude::*;
use crate::model::ProcessRecord;

verus! {

/// The latest snapshot of one resource class and how many publishes made it.
pub struct SnapshotStore<T> {
    value: T,
    generation: u64,
}

impl<T> SnapshotStore<T> {
    /// The value of the latest publish.
    pub closed spec fn latest(&self) -> T {
        self.value
    }

    /// How many publishes came before this state, capped at `u64::MAX`.
    pub closed spec fn generation_spec(&self) -> u64 {
        self.generation
    }

    /// A store holding `initial`, before any publish.
    pub fn new(initial: T) -> (r: SnapshotStore<T>)
        ensures
            r.latest() == initial,
            r.generation_spec() == 0,
    {
        SnapshotStore { value: initial, generation: 0 }
    }

    /// Replaces the held value with `value` as a whole; nothing of the old one stays.
    pub fn publish(&mut self, value: T)
        ensures
            *final(self) == after_publish(*old(self), value),
            final(self).latest() == value,
    {
        self.value = value;
        if self.generation < u64::MAX {
            self.generation = self.generation + 1;
        }
    }

    /// One sampling tick: a successful probe is published; a failed one
    /// leaves the last good snapshot in place and hands its error back.
    pub fn absorb<E>(&mut self, outcome: Result<T, E>) -> (r: Option<E>)
        ensures
            match outcome {
                Ok(v) => *final(self) == after_publish(*old(self), v) && r is None,
                Err(e) => *final(self) == *old(self) && r == Some(e),
            },
    {
        match outcome {
            Ok(v) => {
                self.publish(v);
                None
            },
            Err(e) => Some(e),
        }
    }

    /// The held value, which cannot change while the reference lives.
    pub fn read(&self) -> (r: &T)
        ensures
            *r == self.latest(),
    {
        &self.value
    }

    /// How many publishes the held value stems from.
    pub fn generation(&self) -> (r: u64)
        ensures
            r == self.generation_spec(),
    {
        self.generation
    }
}

/// The store after publishing `value` into `s`.
pub closed spec fn after_publish<T>(s: SnapshotStore<T>, value: T) -> SnapshotStore<T> {
    SnapshotStore {
        value,
        generation: if s.generation == u64::MAX { u64::MAX } else { (s.generation + 1) as u64 },
    }
}

/// The store after publishing each of `values` into `s`, in order.
pub open spec fn after_publishes<T>(s: SnapshotStore<T>, values: Seq<T>) -> SnapshotStore<T>
    decreases values.len(),
{
    if values.len() == 0 {
        s
    } else {
        after_publish(after_publishes(s, values.drop_last()), values.last())
    }
}

/// Proves that after any non-empty sequence of publishes a read sees exactly
/// the value of the last one, whatever the store held before, and that the
/// generation counts the publishes.
pub proof fn lemma_read_sees_last_publish<T>(s: SnapshotStore<T>, values: Seq<T>)
    requires
        values.len() > 0,
    ensures
        after_publishes(s, values).latest() == values.last(),
        s.generation_spec() + values.len() <= u64::MAX ==> after_publishes(s, values).generation_spec()
            == s.generation_spec() + values.len(),
    decreases values.len(),
{
    if values.len() > 1 {
        lemma_read_sees_last_publish(s, values.drop_last());
    } else {
        assert(after_publishes(s, values.drop_last()) == s);
    }
}

/// A copy of the records of a process snapshot, for reading at leisure.
pub fn read_process_snapshot(store: &SnapshotStore<Vec<ProcessRecord>>) -> (r: Vec<ProcessRecord>)
    ensures
        r@ == store.latest()@,
{
    let held = store.read();
    let mut out: Vec<ProcessRecord> = Vec::new();
    let mut i: usize = 0;
    while i < held.len()
        invariant
            i <= held.len(),
            *held == store.latest(),
            out@ == held@.take(i as int),
        decreases held.len() - i,
    {
        out.push(held[i].duplicate());
        i += 1;
        assert(out@ =~= held@.take(i as int));
    }
    assert(held@.take(held.len() as int) =~= held@);
    out
}

} // verus!
