//! The cooperative wake-up protocol.
//!
//! A wait on a [`crate::Flag`] parks the caller until the bit equals its
//! target; a set wakes every parked waiter, and each woken waiter checks the
//! bit again — a spurious wake-up only parks it again. This module states
//! that protocol over an explicit model of the parked waiters, each reduced
//! to the target bit it waits for, and proves that it loses no wake-up.

use vstd::prelude::*;

verus! {

/// Whether a waiter with `target` may park while the bit holds `current`:
/// only while the two differ. The bit is checked immediately before parking,
/// so a set that lands first is seen, not slept through.
pub open spec fn park_permitted(current: bool, target: bool) -> bool {
    current != target
}

/// The waiters that remain parked after the bit is set to `bit`: a set wakes
/// every parked waiter; those whose target now holds resolve, the others
/// check the bit again and park again.
pub open spec fn still_parked(parked: Seq<bool>, bit: bool) -> Seq<bool> {
    parked.filter(|target: bool| target != bit)
}

/// The park decision of a wait loop: park exactly while the bit differs from
/// the target.
pub fn should_park(current: bool, target: bool) -> (r: bool)
    ensures
        r == park_permitted(current, target),
{
    current != target
}

/// No missed wakeup: when the bit is set to `target`, every waiter parked on
/// `target` — however many there are — resolves; none stays parked.
pub proof fn lemma_set_wakes_all(parked: Seq<bool>, target: bool)
    requires
        forall|i: int| 0 <= i < parked.len() ==> parked[i] == target,
    ensures
        still_parked(parked, target).len() == 0,
    decreases parked.len(),
{
    reveal(Seq::<_>::filter);
    if parked.len() > 0 {
        let prefix = parked.drop_last();
        assert forall|i: int| 0 <= i < prefix.len() implies prefix[i] == target by {
            assert(parked[i] == target);
        }
        lemma_set_wakes_all(prefix, target);
    }
}

/// A set that lands before the wait parks is never missed: with the bit
/// already at the target, parking is not permitted, so the waiter resolves
/// at once instead of parking forever.
pub proof fn lemma_check_before_park(current: bool, target: bool)
    requires
        current == target,
    ensures
        !park_permitted(current, target),
{
}

} // verus!
