//! Per-guild playback state and its transitions.
//!
//! A guild session is `Idle` when its queue is empty and `Playing`
//! otherwise; the front queue entry is the one currently playing.  The
//! ghost type [`PlayerModel`] is the mathematical value of a session, and
//! every mutating method states its effect as a pure transition on that
//! model, so that the engine's laws can be proved once over the model.

use vstd::prelude::*;

use crate::queue::{spec_remove_submitter, MusicQueue};
use crate::track::{QueueEntry, Track};

verus! {

/// Playback volume applied when a guild has none configured.
pub const DEFAULT_VOLUME: u64 = 50;

/// Highest volume accepted; `set_volume` clamps to this.
pub const MAX_VOLUME: u64 = 150;

/// Mathematical value of one guild's session.
///
/// `queue` holds the currently-playing entry at index 0 and the waiting
/// entries behind it.  `votes` are the users who voted to skip the current
/// track, each at most once.
#[verifier::ext_equal]
pub struct PlayerModel {
    /// Currently-playing entry first, then the waiting entries in FIFO order.
    pub queue: Seq<QueueEntry>,
    /// Users who voted to skip the current track; no duplicates.
    pub votes: Seq<u64>,
    /// Voice channel the session is bound to, if any.
    pub channel_id: Option<u64>,
    /// Index of the audio node assigned to this guild, if any.
    pub node_id: Option<usize>,
    /// Configured volume; `None` means `DEFAULT_VOLUME` applies.
    pub volume: Option<u64>,
}

impl PlayerModel {
    /// The session is playing exactly when the queue is non-empty.
    pub open spec fn playing(self) -> bool {
        self.queue.len() > 0
    }

    /// The currently-playing entry: the front of the queue.
    pub open spec fn current(self) -> Option<QueueEntry> {
        if self.queue.len() > 0 {
            Some(self.queue[0])
        } else {
            None
        }
    }

    /// The volume a play command must carry.
    pub open spec fn effective_volume(self) -> u64 {
        match self.volume {
            Some(v) => v,
            None => DEFAULT_VOLUME,
        }
    }

    /// Well-formedness: each user voted at most once.
    pub open spec fn wf(self) -> bool {
        self.votes.no_duplicates()
    }
}

/// `enqueue`: the entry joins the tail of the queue; nothing else moves.
pub open spec fn spec_enqueue(m: PlayerModel, entry: QueueEntry) -> PlayerModel {
    PlayerModel { queue: m.queue.push(entry), ..m }
}

/// `advance`: the front entry is popped and the vote tally cleared.
pub open spec fn spec_advance(m: PlayerModel) -> PlayerModel {
    PlayerModel {
        queue: if m.queue.len() == 0 {
            m.queue
        } else {
            m.queue.skip(1)
        },
        votes: Seq::<u64>::empty(),
        ..m
    }
}

/// `vote_skip`'s tally step: a new voter is recorded, a repeated one ignored.
pub open spec fn spec_vote(m: PlayerModel, user: u64) -> PlayerModel {
    if m.votes.contains(user) {
        m
    } else {
        PlayerModel { votes: m.votes.push(user), ..m }
    }
}

/// One guild's playback session: queue, vote tally, node and channel
/// assignment, configured volume.
pub struct PlayerState {
    queue: MusicQueue,
    skip_votes: Vec<u64>,
    channel_id: Option<u64>,
    node_id: Option<usize>,
    volume: Option<u64>,
}

impl View for PlayerState {
    type V = PlayerModel;

    closed spec fn view(&self) -> PlayerModel {
        PlayerModel {
            queue: self.queue@,
            votes: self.skip_votes@,
            channel_id: self.channel_id,
            node_id: self.node_id,
            volume: self.volume,
        }
    }
}

impl PlayerState {
    /// A fresh idle session: empty queue, no votes, no node.
    pub fn new(channel_id: Option<u64>, volume: Option<u64>) -> (s: PlayerState)
        ensures
            s@ == (PlayerModel {
                queue: Seq::<QueueEntry>::empty(),
                votes: Seq::<u64>::empty(),
                channel_id,
                node_id: None,
                volume,
            }),
            s@.wf(),
    {
        PlayerState {
            queue: MusicQueue::new(),
            skip_votes: Vec::new(),
            channel_id,
            node_id: None,
            volume,
        }
    }

    /// True while a track is playing (the queue is non-empty).
    pub fn is_playing(&self) -> (b: bool)
        ensures
            b == self@.playing(),
    {
        !self.queue.is_empty()
    }

    /// Borrows the currently-playing entry.
    pub fn current_entry(&self) -> (r: Option<&QueueEntry>)
        ensures
            match r {
                Some(e) => self@.current() == Some(*e),
                None => self@.current() is None,
            },
    {
        self.queue.front()
    }

    /// The currently-playing track, cloned for the caller.
    pub fn current_track(&self) -> (r: Option<Track>)
        ensures
            match r {
                Some(t) => self@.playing() && t == self@.queue[0].track,
                None => !self@.playing(),
            },
    {
        match self.queue.front() {
            Some(e) => Some(e.track.clone()),
            None => None,
        }
    }

    /// Borrows the queue for read-only inspection.
    pub fn queue_ref(&self) -> (q: &MusicQueue)
        ensures
            q@ == self@.queue,
    {
        &self.queue
    }

    /// Appends an entry at the tail of the queue.
    pub fn enqueue_entry(&mut self, entry: QueueEntry)
        requires
            old(self)@.queue.len() < usize::MAX,
        ensures
            final(self)@ == spec_enqueue(old(self)@, entry),
            old(self)@.wf() ==> final(self)@.wf(),
    {
        self.queue.push(entry);
        proof {
            assert(self@ =~= spec_enqueue(old(self)@, entry));
        }
    }

    /// Pops the front entry and clears the vote tally; returns the popped
    /// entry, the one that had been playing.
    pub fn advance(&mut self) -> (prev: Option<QueueEntry>)
        ensures
            final(self)@ == spec_advance(old(self)@),
            prev == old(self)@.current(),
            final(self)@.wf(),
    {
        self.skip_votes = Vec::new();
        let prev = self.queue.pop();
        proof {
            assert(self@ =~= spec_advance(old(self)@));
        }
        prev
    }

    /// Records a vote to skip the current track; a user counts once.
    /// Returns whether the vote was new.
    #[verifier::loop_isolation(false)]
    pub fn add_vote(&mut self, user: u64) -> (added: bool)
        requires
            old(self)@.wf(),
            old(self)@.votes.len() < usize::MAX,
        ensures
            final(self)@ == spec_vote(old(self)@, user),
            final(self)@.wf(),
            added == !old(self)@.votes.contains(user),
    {
        let mut i: usize = 0;
        while i < self.skip_votes.len()
            invariant
                0 <= i <= self.skip_votes.len(),
                forall|j: int| 0 <= j < i ==> self.skip_votes@[j] != user,
                *self == *old(self),
            decreases self.skip_votes.len() - i,
        {
            if self.skip_votes[i] == user {
                proof {
                    assert(self@ =~= spec_vote(old(self)@, user));
                }
                return false;
            }
            i = i + 1;
        }
        proof {
            assert(!self.skip_votes@.contains(user));
        }
        self.skip_votes.push(user);
        proof {
            assert(self@ =~= spec_vote(old(self)@, user));
        }
        true
    }

    /// How many distinct users voted to skip the current track.
    pub fn vote_count(&self) -> (n: usize)
        ensures
            n == self@.votes.len(),
    {
        self.skip_votes.len()
    }

    /// The voice channel the session is bound to.
    pub fn channel(&self) -> (c: Option<u64>)
        ensures
            c == self@.channel_id,
    {
        self.channel_id
    }

    /// Rebinds the session to a voice channel.
    pub fn set_channel(&mut self, channel_id: Option<u64>)
        ensures
            final(self)@ == (PlayerModel { channel_id, ..old(self)@ }),
            old(self)@.wf() ==> final(self)@.wf(),
    {
        self.channel_id = channel_id;
        proof {
            assert(self@ =~= (PlayerModel { channel_id, ..old(self)@ }));
        }
    }

    /// The node index assigned to this guild.
    pub fn node(&self) -> (n: Option<usize>)
        ensures
            n == self@.node_id,
    {
        self.node_id
    }

    /// Records which node the guild is assigned to.
    pub fn set_node(&mut self, node_id: Option<usize>)
        ensures
            final(self)@ == (PlayerModel { node_id, ..old(self)@ }),
            old(self)@.wf() ==> final(self)@.wf(),
    {
        self.node_id = node_id;
        proof {
            assert(self@ =~= (PlayerModel { node_id, ..old(self)@ }));
        }
    }

    /// Stores a configured volume.
    pub fn store_volume(&mut self, volume: u64)
        ensures
            final(self)@ == (PlayerModel { volume: Some(volume), ..old(self)@ }),
            old(self)@.wf() ==> final(self)@.wf(),
    {
        self.volume = Some(volume);
        proof {
            assert(self@ =~= (PlayerModel { volume: Some(volume), ..old(self)@ }));
        }
    }

    /// The volume a play command must carry: the configured one, or
    /// `DEFAULT_VOLUME` when none was configured.
    pub fn effective_volume(&self) -> (v: u64)
        ensures
            v == self@.effective_volume(),
    {
        match self.volume {
            Some(v) => v,
            None => DEFAULT_VOLUME,
        }
    }

    /// Removes the waiting entry at `index`; the front entry stays.
    pub fn remove_at(&mut self, index: usize) -> (removed: Option<QueueEntry>)
        ensures
            1 <= index < old(self)@.queue.len() ==> removed == Some(old(self)@.queue[index as int])
                && final(self)@ == (PlayerModel {
                queue: old(self)@.queue.remove(index as int),
                ..old(self)@
            }),
            !(1 <= index < old(self)@.queue.len()) ==> removed is None && final(self)@ == old(
                self,
            )@,
            old(self)@.wf() ==> final(self)@.wf(),
    {
        let r = self.queue.remove_at(index);
        proof {
            if 1 <= index < old(self)@.queue.len() {
                assert(self@ =~= (PlayerModel {
                    queue: old(self)@.queue.remove(index as int),
                    ..old(self)@
                }));
            } else {
                assert(self@ =~= old(self)@);
            }
        }
        r
    }

    /// Removes every waiting entry submitted by `submitter`; the front
    /// entry stays.  Returns how many entries were removed.
    pub fn remove_submitter(&mut self, submitter: u64) -> (n: usize)
        ensures
            final(self)@ == (PlayerModel {
                queue: spec_remove_submitter(old(self)@.queue, submitter),
                ..old(self)@
            }),
            n == old(self)@.queue.len() - final(self)@.queue.len(),
            old(self)@.wf() ==> final(self)@.wf(),
    {
        let n = self.queue.remove_submitter(submitter);
        proof {
            assert(self@ =~= (PlayerModel {
                queue: spec_remove_submitter(old(self)@.queue, submitter),
                ..old(self)@
            }));
        }
        n
    }
}

} // verus!
