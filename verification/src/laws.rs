//! The engine's laws: properties of the session transitions, proved once
//! over the ghost model that every operation's contract is stated in.

use vstd::prelude::*;

use crate::client::{advance_applied, Action, Client};
use crate::player::{spec_advance, spec_enqueue, spec_vote, PlayerModel};
use crate::pool::NodeInfo;
use crate::session::spec_leave_command;
use crate::track::QueueEntry;

verus! {

/// On an idle session, the first `enqueue` transitions `Idle → Playing`
/// and the new entry is immediately the current one.
pub proof fn lemma_first_enqueue_starts_playing(m: PlayerModel, e: QueueEntry)
    requires
        !m.playing(),
    ensures
        spec_enqueue(m, e).playing(),
        spec_enqueue(m, e).current() == Some(e),
        spec_enqueue(m, e).queue.len() == 1,
{
}

/// On a playing session, `enqueue` only grows the queue: the current
/// entry, the vote tally and the rest of the session are untouched.
pub proof fn lemma_enqueue_while_playing_grows(m: PlayerModel, e: QueueEntry)
    requires
        m.playing(),
    ensures
        spec_enqueue(m, e).playing(),
        spec_enqueue(m, e).current() == m.current(),
        spec_enqueue(m, e).queue.len() == m.queue.len() + 1,
        spec_enqueue(m, e).votes == m.votes,
{
}

/// A whole sequence of `enqueue`s, folded left to right.
pub open spec fn enqueue_all(m: PlayerModel, entries: Seq<QueueEntry>) -> PlayerModel
    decreases entries.len(),
{
    if entries.len() == 0 {
        m
    } else {
        enqueue_all(spec_enqueue(m, entries[0]), entries.skip(1))
    }
}

/// Any sequence of `enqueue`s appends exactly those entries, in order,
/// and touches nothing else of the session.
pub proof fn lemma_enqueue_sequence(m: PlayerModel, entries: Seq<QueueEntry>)
    ensures
        enqueue_all(m, entries).queue == m.queue + entries,
        enqueue_all(m, entries).votes == m.votes,
        enqueue_all(m, entries).channel_id == m.channel_id,
        enqueue_all(m, entries).node_id == m.node_id,
        enqueue_all(m, entries).volume == m.volume,
    decreases entries.len(),
{
    if entries.len() == 0 {
        assert(enqueue_all(m, entries).queue =~= m.queue + entries);
    } else {
        lemma_enqueue_sequence(spec_enqueue(m, entries[0]), entries.skip(1));
        assert(enqueue_all(m, entries).queue =~= m.queue + entries);
    }
}

/// On an empty guild, any sequence of `enqueue`s makes its first entry
/// the current track and keeps every later one waiting behind it.
pub proof fn lemma_enqueue_sequence_from_idle(m: PlayerModel, entries: Seq<QueueEntry>)
    requires
        !m.playing(),
        entries.len() > 0,
    ensures
        enqueue_all(m, entries).playing(),
        enqueue_all(m, entries).current() == Some(entries[0]),
        enqueue_all(m, entries).queue == entries,
{
    lemma_enqueue_sequence(m, entries);
    assert(enqueue_all(m, entries).queue =~= entries);
}

/// `advance` on a queue of more than one entry pops exactly one: one
/// entry fewer remains, the former second entry is now current, the
/// session keeps playing, and the vote tally is cleared.
pub proof fn lemma_advance_pops_one(m: PlayerModel)
    requires
        m.queue.len() > 1,
    ensures
        spec_advance(m).queue.len() == m.queue.len() - 1,
        spec_advance(m).current() == Some(m.queue[1]),
        spec_advance(m).playing(),
        spec_advance(m).votes.len() == 0,
        forall|i: int|
            0 <= i < m.queue.len() - 1 ==> spec_advance(m).queue[i] == m.queue[i + 1],
{
}

/// `advance` on a queue of exactly one entry empties it: the session
/// transitions `Playing → Idle` and the vote tally is cleared.
pub proof fn lemma_advance_empties(m: PlayerModel)
    requires
        m.queue.len() == 1,
    ensures
        spec_advance(m).queue.len() == 0,
        !spec_advance(m).playing(),
        spec_advance(m).votes.len() == 0,
{
}

/// An advance that empties the queue tears the session down: the state
/// is removed and exactly the gateway leave and the node-side destroy
/// are issued — the disconnect that `Playing → Idle` triggers.
pub proof fn lemma_advance_to_idle_disconnects(
    s1: Map<u64, PlayerModel>,
    pool1: Seq<NodeInfo>,
    s2: Map<u64, PlayerModel>,
    pool2: Seq<NodeInfo>,
    guild_id: u64,
    prev: Option<QueueEntry>,
    acts: Seq<Action>,
)
    requires
        advance_applied(s1, pool1, s2, pool2, guild_id, prev, acts),
        s1[guild_id].queue.len() <= 1,
    ensures
        s2 == s1.remove(guild_id),
        acts.len() == 2,
        acts[0] == (Action::Gateway { command: spec_leave_command(guild_id) }),
        acts[1] == (Action::DestroyPlayer { guild_id }),
{
}

/// Vote tallies count unique voters only: a repeated vote changes
/// nothing, a new vote adds exactly one, and well-formedness (no voter
/// counted twice) is preserved.
pub proof fn lemma_vote_counts_unique(m: PlayerModel, user: u64)
    requires
        m.wf(),
    ensures
        spec_vote(m, user).wf(),
        spec_vote(m, user).votes.contains(user),
        m.votes.contains(user) ==> spec_vote(m, user) == m,
        !m.votes.contains(user) ==> spec_vote(m, user).votes.len() == m.votes.len() + 1,
{
    if !m.votes.contains(user) {
        let v2 = m.votes.push(user);
        assert(v2[m.votes.len() as int] == user);
        assert forall|i: int, j: int|
            0 <= i < v2.len() && 0 <= j < v2.len() && i != j implies v2[i] != v2[j] by {
            if i < m.votes.len() && j < m.votes.len() {
            } else if i == m.votes.len() {
                assert(v2[j] == m.votes[j]);
                assert(!m.votes.contains(user));
            } else {
                assert(v2[i] == m.votes[i]);
            }
        }
    } else {
        assert(spec_vote(m, user).votes.contains(user));
    }
}

/// Voting twice is the same as voting once.
pub proof fn lemma_vote_idempotent(m: PlayerModel, user: u64)
    ensures
        spec_vote(spec_vote(m, user), user) == spec_vote(m, user),
{
    if !m.votes.contains(user) {
        assert(spec_vote(m, user).votes[m.votes.len() as int] == user);
        assert(spec_vote(m, user).votes.contains(user));
    }
}

/// A *new* vote that brings the tally to the threshold.
pub open spec fn vote_crosses(m: PlayerModel, user: u64, threshold: u64) -> bool {
    &&& !m.votes.contains(user)
    &&& spec_vote(m, user).votes.len() >= threshold
}

/// Reaching the threshold forces exactly one advance: the advance clears
/// the tally, so no further single vote can cross the threshold again
/// for the track now playing (with any threshold above one vote).
pub proof fn lemma_threshold_forces_single_advance(
    m: PlayerModel,
    user: u64,
    threshold: u64,
    user2: u64,
)
    requires
        vote_crosses(m, user, threshold),
        threshold > 1,
    ensures
        spec_advance(spec_vote(m, user)).votes.len() == 0,
        !vote_crosses(spec_advance(spec_vote(m, user)), user2, threshold),
{
    let cleared = spec_advance(spec_vote(m, user));
    assert(spec_vote(cleared, user2).votes.len() <= 1);
}

/// Every node's load equals the number of guilds assigned to it — the
/// invariant every engine operation preserves — so a load can never go
/// negative, and each assignment or release moves it by exactly one.
pub proof fn lemma_load_counts_assignments(c: Client, i: int)
    requires
        c.wf(),
        0 <= i < c.pool@.len(),
    ensures
        c.pool@[i].load == crate::client::assigned_guilds(c.states@, i).len(),
{
}

} // verus!
