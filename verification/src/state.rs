//! The shared value cell and its exclusive-write lease.
//!
//! A [`State`] holds one committed value — the snapshot that every reader
//! sees — together with the write flag that gates exclusive writers. A
//! [`StateGuard`] is the lease a writer holds: a private working copy of the
//! value, committed back into the cell when the guard is handed to
//! [`State::commit`].
//!
//! Beside the committed value the cell carries a ghost log of every value
//! ever committed, in commit order; the last entry of the log is always the
//! snapshot. The log is what the ordering laws at the bottom of this module
//! are stated over.

use crate::flag::Flag;
use vstd::prelude::*;

verus! {

/// The exclusive-write lease over a state: a working copy of the value,
/// read and edited transparently. Nothing is published until the guard is
/// committed.
pub struct StateGuard<T> {
    /// The working copy: the private edit that only the holder sees.
    pub data: T,
}

impl<T> StateGuard<T> {
    /// The working copy the guard holds.
    pub open spec fn value(&self) -> T {
        self.data
    }

    /// Read access to the working copy.
    pub fn get(&self) -> (r: &T)
        ensures
            r == self.value(),
    {
        &self.data
    }

    /// Overwrites the working copy; the cell itself is untouched until the
    /// guard is committed.
    pub fn set(&mut self, value: T)
        ensures
            final(self).value() == value,
    {
        self.data = value;
    }
}

/// The inner cell of a state: the committed value and the write flag.
///
/// In a running program the cell is shared by every clone of the state; the
/// model keeps one owner per cell and hands out exclusive borrows. The
/// authoritative copy and the lock-free snapshot of the running program
/// always hold the same committed value, so one field stands for both.
pub struct StateWrap<T> {
    pub(crate) value: T,
    pub(crate) lock: Flag,
}

/// The shared value cell: snapshot reads for many observers, serialized
/// exclusive writes through [`StateGuard`].
pub struct State<T> {
    wrap: StateWrap<T>,
    history: Ghost<Seq<T>>,
}

impl<T: Default + Clone> State<T> {
    /// The committed value: the snapshot every reader sees.
    pub closed spec fn value(&self) -> T {
        self.wrap.value
    }

    /// Whether the write flag is set: some guard is outstanding.
    pub closed spec fn locked(&self) -> bool {
        self.wrap.lock.bit()
    }

    /// The commit log: every committed value, in commit order, starting with
    /// the seed value.
    pub closed spec fn log(&self) -> Seq<T> {
        self.history@
    }

    /// Well-formedness: the log is never empty and its last entry is the
    /// committed value. Constructors establish it and every operation keeps
    /// it.
    pub open spec fn inv(&self) -> bool {
        self.log().len() > 0 && self.log().last() == self.value()
    }

    /// Creates a state seeded with the default value, write flag clear.
    pub fn new() -> (r: Self)
        ensures
            r.inv(),
            !r.locked(),
            call_ensures(T::default, (), r.value()),
            r.log() == seq![r.value()],
    {
        let value = T::default();
        let ghost hist: Seq<T> = seq![value];
        State { wrap: StateWrap { value, lock: Flag::new() }, history: Ghost(hist) }
    }

    /// Creates a state seeded with `value`, write flag clear.
    pub fn from_value(value: T) -> (r: Self)
        ensures
            r.inv(),
            !r.locked(),
            r.value() == value,
            r.log() == seq![value],
    {
        let ghost hist: Seq<T> = seq![value];
        State { wrap: StateWrap { value, lock: Flag::new() }, history: Ghost(hist) }
    }

    /// Whether some guard is outstanding.
    pub fn is_locked(&self) -> (r: bool)
        ensures
            r == self.locked(),
    {
        self.wrap.lock.is_true()
    }

    /// Waits until no guard is outstanding.
    ///
    /// The holder of the borrow is the only writer, so a wait that would
    /// park could never be woken; such calls are ruled out up front.
    pub fn blocking_wait_unlock(&self)
        requires
            !self.locked(),
    {
        while self.is_locked()
            invariant
                !self.locked(),
            decreases 0int,
        {
        }
    }

    /// Waits until no guard is outstanding, then takes the write flag and
    /// returns a guard seeded with a clone of the snapshot.
    pub fn blocking_lock(&mut self) -> (g: StateGuard<T>)
        requires
            old(self).inv(),
            !old(self).locked(),
        ensures
            final(self).inv(),
            final(self).locked(),
            final(self).value() == old(self).value(),
            final(self).log() == old(self).log(),
            cloned(old(self).value(), g.value()),
    {
        self.blocking_wait_unlock();
        self.unsafe_lock()
    }

    /// Takes the write flag without waiting and returns a guard seeded with
    /// a clone of the snapshot.
    ///
    /// The bypass tier: with a guard already outstanding, the two guards
    /// race and the last commit wins — no corruption, possibly a silent
    /// overwrite.
    pub fn unsafe_lock(&mut self) -> (g: StateGuard<T>)
        requires
            old(self).inv(),
        ensures
            final(self).inv(),
            final(self).locked(),
            final(self).value() == old(self).value(),
            final(self).log() == old(self).log(),
            cloned(old(self).value(), g.value()),
    {
        self.wrap.lock.set(true);
        let data = self.unsafe_get_cloned();
        StateGuard { data }
    }

    /// Commits a guard: publishes its working copy as the new snapshot,
    /// appends it to the commit log and clears the write flag, waking every
    /// waiter. Every guard ends here — there is no release path that skips
    /// the commit.
    pub fn commit(&mut self, guard: StateGuard<T>)
        requires
            old(self).inv(),
        ensures
            final(self).inv(),
            !final(self).locked(),
            final(self).value() == guard.value(),
            final(self).log() == old(self).log().push(guard.value()),
    {
        let StateGuard { data } = guard;
        self.history = Ghost(self.history@.push(data));
        self.wrap.value = data;
        self.wrap.lock.set(false);
    }

    /// Waits until no guard is outstanding, then returns the snapshot.
    /// Readers never observe a guard's in-progress private edits.
    pub fn blocking_get(&self) -> (r: &T)
        requires
            !self.locked(),
        ensures
            r == self.value(),
    {
        self.blocking_wait_unlock();
        self.unsafe_get()
    }

    /// Returns the snapshot without waiting. With a guard outstanding the
    /// value may be stale, but it is always a committed value — never a
    /// partial edit.
    pub fn unsafe_get(&self) -> (r: &T)
        ensures
            r == self.value(),
    {
        &self.wrap.value
    }

    /// Waits until no guard is outstanding, then returns a clone of the
    /// snapshot.
    pub fn blocking_get_cloned(&self) -> (r: T)
        requires
            !self.locked(),
        ensures
            cloned(self.value(), r),
    {
        self.blocking_wait_unlock();
        self.unsafe_get_cloned()
    }

    /// Returns a clone of the snapshot without waiting; with a guard
    /// outstanding the value may be stale.
    pub fn unsafe_get_cloned(&self) -> (r: T)
        ensures
            cloned(self.value(), r),
    {
        self.wrap.value.clone()
    }

    /// Waits until no guard is outstanding, then commits `value` as the new
    /// snapshot: one take-flag, commit, clear-flag round trip.
    pub fn blocking_set(&mut self, value: T)
        requires
            old(self).inv(),
            !old(self).locked(),
        ensures
            final(self).inv(),
            !final(self).locked(),
            final(self).value() == value,
            final(self).log() == old(self).log().push(value),
    {
        self.blocking_wait_unlock();
        self.wrap.lock.set(true);
        self.unsafe_set(value);
        self.wrap.lock.set(false);
    }

    /// Commits `value` as the new snapshot without waiting and without
    /// touching the write flag.
    ///
    /// The bypass tier: with a guard outstanding this racing write is
    /// overwritten by the guard's later commit — last committer wins.
    pub fn unsafe_set(&mut self, value: T)
        requires
            old(self).inv(),
        ensures
            final(self).inv(),
            final(self).locked() == old(self).locked(),
            final(self).value() == value,
            final(self).log() == old(self).log().push(value),
    {
        self.history = Ghost(self.history@.push(value));
        self.wrap.value = value;
    }

    /// Waits until no guard is outstanding, then applies `f` to a clone of
    /// the snapshot and commits the result through a guard.
    pub fn blocking_map<F: FnOnce(T) -> T>(&mut self, f: F)
        requires
            old(self).inv(),
            !old(self).locked(),
            forall|x: T| cloned(old(self).value(), x) ==> call_requires(f, (x,)),
        ensures
            final(self).inv(),
            !final(self).locked(),
            exists|x: T|
                cloned(old(self).value(), x) && call_ensures(f, (x,), final(self).value()),
            final(self).log() == old(self).log().push(final(self).value()),
    {
        let guard = self.blocking_lock();
        let StateGuard { data } = guard;
        let data = f(data);
        self.commit(StateGuard { data });
    }

    /// Applies `f` to a clone of the snapshot and commits the result,
    /// without waiting for an outstanding guard.
    ///
    /// The bypass tier: a racing guard's later commit overwrites this one.
    pub fn unsafe_map<F: FnOnce(T) -> T>(&mut self, f: F)
        requires
            old(self).inv(),
            forall|x: T| cloned(old(self).value(), x) ==> call_requires(f, (x,)),
        ensures
            final(self).inv(),
            !final(self).locked(),
            exists|x: T|
                cloned(old(self).value(), x) && call_ensures(f, (x,), final(self).value()),
            final(self).log() == old(self).log().push(final(self).value()),
    {
        let guard = self.unsafe_lock();
        let StateGuard { data } = guard;
        let data = f(data);
        self.commit(StateGuard { data });
    }
}


impl<T: Default + Clone> Default for State<T> {
    /// A state seeded with the default value, write flag clear.
    fn default() -> (r: Self)
        ensures
            r.inv(),
            !r.locked(),
            call_ensures(T::default, (), r.value()),
    {
        Self::new()
    }
}

/// Whether a `lock` can go through at once: the write flag is clear. While a
/// guard is outstanding the flag bars every further `lock`.
pub open spec fn lock_enabled<T: Default + Clone>(s: State<T>) -> bool {
    !s.locked()
}

/// No lost updates: after any run of commits serialized through the write
/// flag, the snapshot equals the last committed value, in commit order —
/// whatever the log held before the run.
pub proof fn lemma_no_lost_updates<T: Default + Clone>(s: State<T>, log0: Seq<T>, committed: Seq<T>)
    requires
        s.inv(),
        s.log() == log0 + committed,
        committed.len() > 0,
    ensures
        s.value() == committed.last(),
{
    assert(s.log().last() == (log0 + committed)[log0.len() + committed.len() - 1]);
    assert((log0 + committed)[log0.len() + committed.len() - 1] == committed.last());
}

/// No torn reads: the snapshot is always one of the values that was
/// committed — the seed or some guard's committed copy — never a mixture.
pub proof fn lemma_read_is_committed<T: Default + Clone>(s: State<T>)
    requires
        s.inv(),
    ensures
        s.log().contains(s.value()),
{
    assert(s.log()[s.log().len() - 1] == s.value());
}

/// Round trip: a state built from a value holds exactly that value, so
/// reading it back returns the value itself.
pub proof fn lemma_round_trip<T: Default + Clone>(s: State<T>, v: T, r: T)
    requires
        s.value() == v,  // what `from_value(v)` ensures of the state it builds
        r == s.value(),  // what `blocking_get` ensures of what it returns
    ensures
        r == v,
{
}

/// Serialized increments: a commit log that starts at zero and rises by one
/// at each commit ends at the number of commits. With each of M callers
/// adding one under the write flag, the final counter is exactly M.
pub proof fn lemma_serialized_increments(log: Seq<int>)
    requires
        log.len() > 0,
        log[0] == 0,
        forall|i: int| 0 < i < log.len() ==> #[trigger] log[i] == log[i - 1] + 1,
    ensures
        log.last() == log.len() - 1,
    decreases log.len(),
{
    if log.len() > 1 {
        let prefix = log.drop_last();
        assert forall|i: int| 0 < i < prefix.len() implies #[trigger] prefix[i] == prefix[i - 1] + 1 by {
            assert(log[i] == log[i - 1] + 1);
        }
        lemma_serialized_increments(prefix);
        assert(log[log.len() - 2] == prefix.last());
    }
}

/// Guard discipline: while a guard is outstanding the write flag bars a
/// second `lock`; committing the guard clears the flag and re-enables it.
pub proof fn lemma_guard_discipline<T: Default + Clone>(held: State<T>, released: State<T>)
    requires
        held.locked(),  // what `lock` ensures while its guard is alive
        !released.locked(),  // what `commit` ensures once the guard is gone
    ensures
        !lock_enabled(held),
        lock_enabled(released),
{
}

} // verus!

