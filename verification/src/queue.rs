//! The per-guild playback queue: plain FIFO order, front entry first.
//!
//! The front of the queue is the entry currently being played; everything
//! behind it is waiting.  The ordering policy is confined to this module so
//! that it can be swapped without touching the rest of the engine.

use vstd::prelude::*;

use crate::track::QueueEntry;

verus! {

/// FIFO queue of `(submitter, track)` entries for one guild.
pub struct MusicQueue {
    entries: Vec<QueueEntry>,
}

impl View for MusicQueue {
    type V = Seq<QueueEntry>;

    closed spec fn view(&self) -> Seq<QueueEntry> {
        self.entries@
    }
}

/// The queue after removing every waiting entry (position 1 and later)
/// submitted by `submitter`.  The front entry is never removed.
pub open spec fn spec_remove_submitter(q: Seq<QueueEntry>, submitter: u64) -> Seq<QueueEntry> {
    if q.len() == 0 {
        q
    } else {
        seq![q[0]] + q.skip(1).filter(|e: QueueEntry| e.submitter != submitter)
    }
}

impl MusicQueue {
    /// An empty queue.
    pub fn new() -> (q: MusicQueue)
        ensures
            q@ == Seq::<QueueEntry>::empty(),
    {
        MusicQueue { entries: Vec::new() }
    }

    /// Number of entries, the currently-playing front included.
    pub fn len(&self) -> (n: usize)
        ensures
            n == self@.len(),
    {
        self.entries.len()
    }

    /// True when nothing is queued or playing.
    pub fn is_empty(&self) -> (b: bool)
        ensures
            b == (self@.len() == 0),
    {
        self.entries.len() == 0
    }

    /// Appends an entry at the tail.
    pub fn push(&mut self, entry: QueueEntry)
        requires
            old(self)@.len() < usize::MAX,
        ensures
            final(self)@ == old(self)@.push(entry),
    {
        self.entries.push(entry);
    }

    /// Removes and returns the front entry; `None` on an empty queue.
    pub fn pop(&mut self) -> (r: Option<QueueEntry>)
        ensures
            old(self)@.len() == 0 ==> r is None && final(self)@ == old(self)@,
            old(self)@.len() > 0 ==> r == Some(old(self)@[0])
                && final(self)@ == old(self)@.skip(1),
    {
        if self.entries.len() == 0 {
            None
        } else {
            let e = self.entries.remove(0);
            proof {
                assert(self.entries@ =~= old(self).entries@.skip(1));
            }
            Some(e)
        }
    }

    /// Borrows the front entry, the one currently playing.
    pub fn front(&self) -> (r: Option<&QueueEntry>)
        ensures
            self@.len() == 0 ==> r is None,
            self@.len() > 0 ==> r == Some(&self@[0]),
    {
        if self.entries.len() == 0 {
            None
        } else {
            Some(&self.entries[0])
        }
    }

    /// Borrows the entry at `index`, the front being index 0.
    pub fn get(&self, index: usize) -> (r: Option<&QueueEntry>)
        ensures
            index < self@.len() ==> r == Some(&self@[index as int]),
            index >= self@.len() ==> r is None,
    {
        if index < self.entries.len() {
            Some(&self.entries[index])
        } else {
            None
        }
    }

    /// Removes the waiting entry at `index` (position 1 or later).  The
    /// front entry and out-of-range indices are left alone.
    pub fn remove_at(&mut self, index: usize) -> (removed: Option<QueueEntry>)
        ensures
            1 <= index < old(self)@.len() ==> removed == Some(old(self)@[index as int])
                && final(self)@ == old(self)@.remove(index as int),
            !(1 <= index < old(self)@.len()) ==> removed is None && final(self)@ == old(self)@,
    {
        if 1 <= index && index < self.entries.len() {
            Some(self.entries.remove(index))
        } else {
            None
        }
    }

    /// Removes every waiting entry submitted by `submitter`, leaving the
    /// front entry in place; returns how many entries were removed.
    #[verifier::loop_isolation(false)]
    pub fn remove_submitter(&mut self, submitter: u64) -> (n: usize)
        ensures
            final(self)@ == spec_remove_submitter(old(self)@, submitter),
            n == old(self)@.len() - final(self)@.len(),
    {
        if self.entries.len() == 0 {
            return 0;
        }
        let ghost q0 = self.entries@;
        let ghost pred = |e: QueueEntry| e.submitter != submitter;
        let mut kept: Vec<QueueEntry> = Vec::new();
        kept.push(self.entries[0].clone());
        let mut i: usize = 1;
        while i < self.entries.len()
            invariant
                1 <= i <= q0.len(),
                self.entries@ == q0,
                kept@ == seq![q0[0]] + q0.skip(1).take(i - 1).filter(pred),
            decreases q0.len() - i,
        {
            proof {
                reveal(Seq::filter);
                assert(q0.skip(1).take(i as int).drop_last() =~= q0.skip(1).take(i - 1));
                assert(q0.skip(1).take(i as int).last() == q0[i as int]);
            }
            proof {
                reveal(Seq::filter);
                assert(q0.skip(1).take(i as int).filter(pred) == (if pred(q0[i as int]) {
                    q0.skip(1).take(i - 1).filter(pred).push(q0[i as int])
                } else {
                    q0.skip(1).take(i - 1).filter(pred)
                }));
            }
            if self.entries[i].submitter != submitter {
                kept.push(self.entries[i].clone());
            }
            proof {
                assert(kept@ =~= seq![q0[0]] + q0.skip(1).take(i as int).filter(pred));
            }
            i = i + 1;
        }
        proof {
            assert(q0.skip(1).take(q0.len() - 1) =~= q0.skip(1));
            assert(kept@ =~= spec_remove_submitter(q0, submitter));
            q0.skip(1).lemma_filter_len(pred);
        }
        let n = self.entries.len() - kept.len();
        self.entries = kept;
        n
    }
}

} // verus!
