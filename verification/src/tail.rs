//! The pending-line queue of the log-tail utility.
//!
//! The tail utility polls a file at a fixed interval; each poll appends the
//! freshly read lines to a queue held in a [`State`], and a [`Flag`] signals
//! "new content available" to the consumer. This module holds the two
//! decision steps of that loop — what a poll does with the lines it found,
//! and what the consumer does when it asks for the next line; the polling
//! itself, file reads and timers, stays outside the library.

use crate::flag::Flag;
use crate::lines::byte_lines;
use crate::state::State;
use vstd::prelude::*;

verus! {

/// A value handed back by cloning a vector of byte lines is the same lines.
proof fn lemma_cloned_lines(a: Vec<Vec<u8>>, b: Vec<Vec<u8>>)
    requires
        cloned(a, b),
    ensures
        byte_lines(a@) == byte_lines(b@),
{
    if a != b {
        assert(a@.len() == b@.len());
        assert forall|i: int| 0 <= i < a@.len() implies (#[trigger] a@[i])@ == b@[i]@ by {
            assert(cloned::<Vec<u8>>(a@[i], b@[i]));
            if a@[i] != b@[i] {
                assert(a@[i]@.len() == b@[i]@.len());
                assert forall|j: int| 0 <= j < a@[i]@.len() implies a@[i]@[j] == b@[i]@[j] by {
                    assert(cloned::<u8>(a@[i]@[j], b@[i]@[j]));
                }
                assert(a@[i]@ =~= b@[i]@);
            }
        }
        assert(byte_lines(a@) =~= byte_lines(b@));
    }
}

/// The queue of lines read from the tailed file and not yet handed out,
/// oldest first, with the flag that signals pending content.
pub struct TailQueue {
    stack: State<Vec<Vec<u8>>>,
    available: Flag,
}

impl TailQueue {
    /// The pending lines, oldest first.
    pub closed spec fn queued(&self) -> Seq<Seq<u8>> {
        byte_lines(self.stack.value()@)
    }

    /// Whether the flag that signals pending content is raised.
    pub closed spec fn flagged(&self) -> bool {
        self.available.bit()
    }

    /// Well-formedness: the queue's cell is well formed and not held by a
    /// writer between steps.
    pub closed spec fn wf(&self) -> bool {
        self.stack.inv() && !self.stack.locked()
    }

    /// Creates an empty queue, flag clear.
    pub fn new() -> (r: Self)
        ensures
            r.wf(),
            r.queued() == Seq::<Seq<u8>>::empty(),
            !r.flagged(),
    {
        let r = TailQueue { stack: State::from_value(Vec::new()), available: Flag::new() };
        proof {
            assert(r.queued() =~= Seq::<Seq<u8>>::empty());
        }
        r
    }

    /// Whether the flag that signals pending content is raised.
    pub fn is_available(&self) -> (r: bool)
        ensures
            r == self.flagged(),
    {
        self.available.is_true()
    }

    /// The poll step: appends the lines found past the last read position
    /// and, if any arrived, raises the flag so a parked consumer wakes.
    pub fn push_lines(&mut self, new_lines: Vec<Vec<u8>>)
        requires
            old(self).wf(),
        ensures
            final(self).wf(),
            final(self).queued() == old(self).queued() + byte_lines(new_lines@),
            final(self).flagged() == (old(self).flagged() || new_lines@.len() > 0),
    {
        let ghost arrived = byte_lines(new_lines@);
        if new_lines.len() > 0 {
            let mut new_lines = new_lines;
            let mut guard = self.stack.blocking_lock();
            proof {
                lemma_cloned_lines(self.stack.value(), guard.value());
            }
            let ghost clone0 = guard.value()@;
            let ghost nl0 = new_lines@;
            guard.data.append(&mut new_lines);
            proof {
                assert(guard.value()@ =~= clone0 + nl0);
            }
            self.stack.commit(guard);
            if self.available.is_false() {
                self.available.set(true);
            }
            proof {
                assert(self.stack.value()@ =~= clone0 + nl0);
                assert(byte_lines(self.stack.value()@) =~= byte_lines(clone0) + byte_lines(nl0));
                assert(byte_lines(clone0) == old(self).queued());
                assert(self.queued() =~= old(self).queued() + arrived);
            }
        } else {
            proof {
                assert(self.queued() =~= old(self).queued() + arrived);
            }
        }
    }

    /// The consumer step: pops the oldest pending line. With nothing
    /// pending it clears the flag instead — the wait loop around it then
    /// parks until the next poll raises the flag again.
    pub fn try_next(&mut self) -> (r: Option<Vec<u8>>)
        requires
            old(self).wf(),
        ensures
            final(self).wf(),
            (match r {
                Some(line) => {
                    &&& old(self).queued().len() > 0
                    &&& line@ == old(self).queued()[0]
                    &&& final(self).queued() == old(self).queued().drop_first()
                    &&& final(self).flagged() == old(self).flagged()
                },
                None => {
                    &&& old(self).queued().len() == 0
                    &&& final(self).queued() == old(self).queued()
                    &&& !final(self).flagged()
                },
            }),
    {
        let mut guard = self.stack.blocking_lock();
        proof {
            lemma_cloned_lines(self.stack.value(), guard.value());
        }
        if guard.data.len() > 0 {
            let line = guard.data.remove(0);
            self.stack.commit(guard);
            proof {
                assert(self.queued() =~= old(self).queued().drop_first());
            }
            Some(line)
        } else {
            self.stack.commit(guard);
            self.available.set(false);
            proof {
                assert(self.queued() =~= old(self).queued());
            }
            None
        }
    }
}

} // verus!
