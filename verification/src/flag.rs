//! The boolean exclusion signal.
//!
//! A [`Flag`] is a shared boolean cell: a linearizable bit plus a wake-up of
//! every waiter parked on it. Here the bit is held behind an exclusive
//! borrow, so each operation's effect on it is stated exactly; the wake-up
//! protocol is modelled and proved in [`crate::wake`].

use vstd::prelude::*;

verus! {

#[verifier::external_type_specification]
#[verifier::external_body]
pub struct ExInstant(std::time::Instant);

/// Relies on `std::time::Instant::now` for the current moment; the result
/// depends on the clock, so nothing is promised of it.
#[verifier::external_body]
fn instant_now() -> std::time::Instant {
    std::time::Instant::now()
}

/// Relies on `std::time::Instant::elapsed` for the time since `start`; the
/// result depends on the clock, so nothing is promised of it.
#[verifier::external_body]
fn elapsed_since(start: &std::time::Instant) -> core::time::Duration {
    start.elapsed()
}

/// Relies on `core::time::Duration`'s ordering: whether `a` is at least `b`.
/// Both values are opaque here, so nothing more is promised of the result.
#[verifier::external_body]
fn duration_at_least(a: &core::time::Duration, b: &core::time::Duration) -> bool {
    *a >= *b
}

/// Relies on `std::hint::spin_loop`, the processor's pause hint for a busy
/// wait; it computes nothing.
#[verifier::external_body]
fn cpu_pause() {
    std::hint::spin_loop();
}

/// The inner cell of a flag: the bit that all observers converge on.
///
/// In a running program this cell is shared by every clone of the flag; the
/// model keeps one owner per cell and hands out exclusive borrows.
#[derive(Clone)]
pub struct FlagWrap {
    bit: bool,
}

/// The boolean signal: the single source of truth for one shared bit.
pub struct Flag {
    wrap: FlagWrap,
}

impl Flag {
    /// The bit the flag currently holds.
    pub closed spec fn bit(&self) -> bool {
        self.wrap.bit
    }

    /// Creates a new flag, initially clear.
    pub fn new() -> (r: Self)
        ensures
            !r.bit(),
    {
        Flag { wrap: FlagWrap { bit: false } }
    }

    /// Creates a flag already holding `value`.
    pub fn from_bool(value: bool) -> (r: Self)
        ensures
            r.bit() == value,
    {
        let mut this = Self::new();
        this.set(value);
        this
    }

    /// Check the bit for `true`.
    pub fn is_true(&self) -> (r: bool)
        ensures
            r == self.bit(),
    {
        self.get()
    }

    /// Check the bit for `false`.
    pub fn is_false(&self) -> (r: bool)
        ensures
            r == !self.bit(),
    {
        !self.get()
    }

    /// A linearizable read of the bit.
    pub fn get(&self) -> (r: bool)
        ensures
            r == self.bit(),
    {
        self.wrap.bit
    }

    /// A linearizable write of the bit; in the running program it then wakes
    /// every waiter currently parked on the flag (see [`crate::wake`]).
    pub fn set(&mut self, value: bool)
        ensures
            final(self).bit() == value,
    {
        self.wrap.bit = value;
    }

    /// Waits until the bit equals `value`.
    ///
    /// The holder of the borrow is the only writer, so a wait that would park
    /// could never be woken; such calls are ruled out up front.
    pub fn blocking_wait(&self, value: bool)
        requires
            self.bit() == value,
    {
        while self.get() != value
            invariant
                self.bit() == value,
            decreases 0int,
        {
        }
    }

    /// Waits until the bit equals `value` or `timeout` has passed, whichever
    /// comes first; returns whether the bit was reached before the deadline.
    ///
    /// Only the holder of the borrow could change the bit, so the outcome is
    /// decided by the bit alone: `true` exactly when it already equals
    /// `value`. The spin is bounded so that it provably ends; the bound is
    /// far beyond any deadline a caller could wait out.
    pub fn blocking_wait_timeout(&self, value: bool, timeout: core::time::Duration) -> (r: bool)
        ensures
            r == (self.bit() == value),
    {
        if self.get() == value {
            return true;
        }
        let start = instant_now();
        let mut fuel: u64 = u64::MAX;
        while fuel > 0
            invariant
                self.bit() != value,
            decreases fuel,
        {
            if self.get() == value {
                return true;
            }
            if duration_at_least(&elapsed_since(&start), &timeout) {
                return false;
            }
            cpu_pause();
            fuel = fuel - 1;
        }
        self.get() == value
    }

    /// Waits for the bit to equal the complement of `value`, then sets
    /// `value`: a guarded toggle.
    pub fn blocking_swap(&mut self, value: bool)
        requires
            old(self).bit() == !value,
        ensures
            final(self).bit() == value,
    {
        self.blocking_wait(!value);
        self.set(value);
    }
}

impl Default for Flag {
    /// A new flag, initially clear.
    fn default() -> (r: Self)
        ensures
            !r.bit(),
    {
        Self::new()
    }
}

} // verus!
