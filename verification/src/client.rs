//! The playback engine: per-guild sessions plus the node pool, and every
//! decision the bot takes about them.
//!
//! Mutating operations return [`Action`] values — the node and gateway
//! calls that the surrounding process must perform — instead of doing any
//! I/O themselves.
//!
//! The engine's well-formedness ties the two halves together: every node's
//! recorded load equals the number of guilds currently assigned to it, so
//! a load can never go negative and assignment and release move it by
//! exactly one.

use vstd::prelude::*;

use crate::player::{spec_advance, spec_enqueue, spec_vote, PlayerModel, PlayerState};
use crate::pool::{has_connected, is_best_node, NodeInfo, NodePool};
use crate::store::GuildStateStore;
use crate::track::{QueueEntry, Track};
use crate::session::{spec_join_command, spec_leave_command, VoiceGatewayCommand};
use crate::MusicError;

verus! {

broadcast use vstd::set::group_set_axioms, vstd::set_lib::group_set_lib_default;

/// A call the surrounding process must make on behalf of the engine.
#[derive(Debug)]
pub enum Action {
    /// Send a play command for `track` to node `node_id`, at `volume`.
    Play { guild_id: u64, node_id: usize, track: Track, volume: u64 },
    /// Apply `volume` on node `node_id` for the guild's live player.
    SetVolume { guild_id: u64, node_id: usize, volume: u64 },
    /// Send a voice-state command over the gateway.
    Gateway { command: VoiceGatewayCommand },
    /// Destroy the node-side player resource of the guild.
    DestroyPlayer { guild_id: u64 },
}

/// The node a guild is assigned to, `None` when the guild has no session
/// or no assignment.
pub open spec fn assignment_of(states: Map<u64, PlayerModel>, guild_id: u64) -> Option<usize> {
    if states.contains_key(guild_id) {
        states[guild_id].node_id
    } else {
        None
    }
}

/// Whether `a` assigns node index `i`.
pub open spec fn opt_is_node(a: Option<usize>, i: int) -> bool {
    match a {
        Some(n) => n == i,
        None => false,
    }
}

/// The guilds currently assigned to node `i`.
pub open spec fn assigned_guilds(states: Map<u64, PlayerModel>, i: int) -> Set<u64> {
    states.dom().filter(|g: u64| opt_is_node(states[g].node_id, i))
}

/// How one guild's move from assignment `a1` to `a2` changes node `i`'s
/// guild count.
pub open spec fn load_delta(a1: Option<usize>, a2: Option<usize>, i: int) -> int {
    (if opt_is_node(a2, i) {
        1int
    } else {
        0int
    }) - (if opt_is_node(a1, i) {
        1int
    } else {
        0int
    })
}

/// When only guild `g`'s assignment changed between `s1` and `s2`, and
/// every node's load moved by exactly that guild's delta, the loads again
/// count the assigned guilds.
proof fn lemma_loads_after_update(
    pool1: Seq<NodeInfo>,
    pool2: Seq<NodeInfo>,
    s1: Map<u64, PlayerModel>,
    s2: Map<u64, PlayerModel>,
    g: u64,
)
    requires
        s1.dom().finite(),
        s2.dom().finite(),
        pool2.len() == pool1.len(),
        forall|h: u64| h != g ==> #[trigger] assignment_of(s2, h) == assignment_of(s1, h),
        forall|i: int|
            0 <= i < pool1.len() ==> (#[trigger] pool1[i]).load == assigned_guilds(s1, i).len(),
        forall|i: int|
            0 <= i < pool2.len() ==> (#[trigger] pool2[i]).load == pool1[i].load + load_delta(
                assignment_of(s1, g),
                assignment_of(s2, g),
                i,
            ),
    ensures
        forall|i: int|
            0 <= i < pool2.len() ==> (#[trigger] pool2[i]).load == assigned_guilds(s2, i).len(),
{
    assert forall|i: int|
        0 <= i < pool2.len() implies (#[trigger] pool2[i]).load == assigned_guilds(
        s2,
        i,
    ).len() by {
        let a1 = assignment_of(s1, g);
        let a2 = assignment_of(s2, g);
        let t1 = assigned_guilds(s1, i);
        let t2 = assigned_guilds(s2, i);
        assert(t1.finite());
        assert(t2.finite());
        assert forall|h: u64| #[trigger] t1.contains(h) == opt_is_node(
            assignment_of(s1, h),
            i,
        ) by {
            lemma_assigned_contains(s1, i, h);
        }
        assert forall|h: u64| #[trigger] t2.contains(h) == opt_is_node(
            assignment_of(s2, h),
            i,
        ) by {
            lemma_assigned_contains(s2, i, h);
        }
        if opt_is_node(a1, i) {
            assert(t1.contains(g));
            if opt_is_node(a2, i) {
                assert(t2 =~= t1);
            } else {
                assert(t2 =~= t1.remove(g));
                lemma_remove_present_len(t1, g);
            }
        } else {
            assert(!t1.contains(g));
            if opt_is_node(a2, i) {
                assert(t2 =~= t1.insert(g));
                vstd::set::axiom_set_insert_len(t1, g);
            } else {
                assert(t2 =~= t1);
            }
        }
    }
}

/// Membership in the guilds assigned to node `i`, phrased over the
/// guild's assignment.
proof fn lemma_assigned_contains(s: Map<u64, PlayerModel>, i: int, h: u64)
    ensures
        assigned_guilds(s, i).contains(h) == opt_is_node(assignment_of(s, h), i),
{
    if s.dom().contains(h) {
        assert(assigned_guilds(s, i).contains(h) == opt_is_node(s[h].node_id, i));
    } else {
        assert(!assigned_guilds(s, i).contains(h));
    }
}

/// Cardinality of removing a present element from a finite set.
proof fn lemma_remove_present_len(s: Set<u64>, a: u64)
    requires
        s.finite(),
        s.contains(a),
    ensures
        s.remove(a).len() == s.len() - 1,
        s.len() >= 1,
{
    vstd::set::axiom_set_remove_len(s, a);
}

/// A session as first created: empty queue, no votes, no channel, no
/// node, the given configured volume.
pub open spec fn fresh_model(volume: Option<u64>) -> PlayerModel {
    PlayerModel {
        queue: Seq::<QueueEntry>::empty(),
        votes: Seq::<u64>::empty(),
        channel_id: None,
        node_id: None,
        volume,
    }
}

/// The guild's session in `s`, or a fresh one if it has none.
pub open spec fn existing_or_fresh(s: Map<u64, PlayerModel>, guild_id: u64) -> PlayerModel {
    if s.contains_key(guild_id) {
        s[guild_id]
    } else {
        fresh_model(None)
    }
}

/// What `ensure_node` guarantees when it returns node `n`: an existing
/// assignment to a connected node is kept untouched; otherwise the guild
/// is assigned to the least-loaded connected node, whose load grows by
/// one, a stale previous assignment is released (its load shrinking by
/// one), and every other node is untouched.
pub open spec fn node_ensured(
    s1: Map<u64, PlayerModel>,
    pool1: Seq<NodeInfo>,
    s2: Map<u64, PlayerModel>,
    pool2: Seq<NodeInfo>,
    guild_id: u64,
    n: usize,
) -> bool {
    &&& n < pool1.len()
    &&& pool2.len() == pool1.len()
    &&& pool2[n as int].connected
    &&& s2.contains_key(guild_id)
    &&& s2[guild_id].node_id == Some(n)
    &&& if assignment_of(s1, guild_id) == Some(n) && pool1[n as int].connected {
        // kept the existing assignment
        &&& s2 == s1
        &&& pool2 == pool1
    } else {
        // fresh assignment to the least-loaded connected node
        &&& is_best_node(pool1, n as int)
        &&& s2[guild_id] == (PlayerModel { node_id: Some(n), ..existing_or_fresh(s1, guild_id) })
        &&& s2.remove(guild_id) == s1.remove(guild_id)
        &&& forall|i: int|
            0 <= i < pool1.len() ==> (#[trigger] pool2[i]).connected == pool1[i].connected
        &&& pool2[n as int].load == pool1[n as int].load + 1
        &&& forall|i: int|
            0 <= i < pool1.len() && i != n && !opt_is_node(assignment_of(s1, guild_id), i)
                ==> (#[trigger] pool2[i]).load == pool1[i].load
        &&& match assignment_of(s1, guild_id) {
            Some(n0) => n0 != n ==> pool2[n0 as int].load == pool1[n0 as int].load - 1
                && pool1[n0 as int].load >= 1,
            None => true,
        }
    }
}

/// How the pool changes when the guild's session is torn down: the
/// assigned node, if any, loses exactly one unit of load — which the
/// engine invariant keeps from ever dipping below zero.
pub open spec fn teardown_pool(
    pool1: Seq<NodeInfo>,
    s1: Map<u64, PlayerModel>,
    guild_id: u64,
    pool2: Seq<NodeInfo>,
) -> bool {
    match assignment_of(s1, guild_id) {
        Some(n) => {
            &&& n < pool1.len()
            &&& pool1[n as int].load >= 1
            &&& pool2 == pool1.update(
                n as int,
                (NodeInfo {
                    connected: pool1[n as int].connected,
                    load: (pool1[n as int].load - 1) as u64,
                }),
            )
        },
        None => pool2 == pool1,
    }
}

/// What one `advance` of a guild's session does to the whole engine,
/// relating the pre-state `(s1, pool1)` to the post-state `(s2, pool2)`:
/// the front entry is popped and the votes cleared; with entries left the
/// new front is started on an ensured node, else the session is torn
/// down — state removed, node released, leave and destroy issued.
pub open spec fn advance_applied(
    s1: Map<u64, PlayerModel>,
    pool1: Seq<NodeInfo>,
    s2: Map<u64, PlayerModel>,
    pool2: Seq<NodeInfo>,
    guild_id: u64,
    prev: Option<QueueEntry>,
    acts: Seq<Action>,
) -> bool {
    &&& s1.contains_key(guild_id)
    &&& prev == s1[guild_id].current()
    &&& ({
        let m2 = spec_advance(s1[guild_id]);
        if m2.queue.len() > 0 {
            &&& acts.len() == 1
            &&& (acts[0] matches Action::Play {
                guild_id: ag,
                node_id: an,
                track: at,
                volume: av,
            } && ag == guild_id && node_ensured(
                s1.insert(guild_id, m2),
                pool1,
                s2,
                pool2,
                guild_id,
                an,
            ) && at == m2.queue[0].track && av == m2.effective_volume())
        } else {
            &&& s2 == s1.remove(guild_id)
            &&& teardown_pool(pool1, s1, guild_id, pool2)
            &&& acts.len() == 2
            &&& acts[0] == (Action::Gateway { command: spec_leave_command(guild_id) })
            &&& acts[1] == (Action::DestroyPlayer { guild_id })
        }
    })
}

/// The playback engine: the node pool and every guild's session.
pub struct Client {
    /// The configured audio-node cluster.
    pub pool: NodePool,
    /// Per-guild playback sessions.
    pub states: GuildStateStore,
}

impl Client {
    /// Engine invariant.
    ///
    /// Every session is well-formed, every assigned node index is in
    /// range, and every node's load equals the number of guilds assigned
    /// to it — hence a load never goes negative and moves by exactly one
    /// per assignment or release.
    pub open spec fn wf(self) -> bool {
        &&& self.states@.dom().finite()
        &&& forall|g: u64|
            self.states@.contains_key(g) ==> (#[trigger] self.states@[g]).wf()
        &&& forall|g: u64|
            self.states@.contains_key(g) ==> match (#[trigger] self.states@[g]).node_id {
                Some(n) => n < self.pool@.len(),
                None => true,
            }
        &&& forall|i: int|
            0 <= i < self.pool@.len() ==> (#[trigger] self.pool@[i]).load == assigned_guilds(
                self.states@,
                i,
            ).len()
    }

    /// A fresh engine over `node_count` configured, not yet connected
    /// nodes and no guild sessions.
    pub fn new(node_count: usize) -> (c: Client)
        ensures
            c.wf(),
            c.pool@.len() == node_count,
            forall|i: int|
                0 <= i < node_count ==> c.pool@[i] == (NodeInfo { connected: false, load: 0 }),
            c.states@ == Map::<u64, PlayerModel>::empty(),
    {
        let c = Client { pool: NodePool::new(node_count), states: GuildStateStore::new() };
        proof {
            assert forall|i: int|
                0 <= i < c.pool@.len() implies (#[trigger] c.pool@[i]).load == assigned_guilds(
                c.states@,
                i,
            ).len() by {
                assert(assigned_guilds(c.states@, i) =~= Set::<u64>::empty());
            }
        }
        c
    }

    /// A node's supervisor reports a live connection: the node becomes
    /// visible to selection.  Loads and sessions are untouched.
    pub fn node_connected(&mut self, node_id: usize)
        requires
            old(self).wf(),
            node_id < old(self).pool@.len(),
        ensures
            final(self).wf(),
            final(self).states@ == old(self).states@,
            final(self).pool@ == old(self).pool@.update(
                node_id as int,
                (NodeInfo { connected: true, load: old(self).pool@[node_id as int].load }),
            ),
    {
        self.pool.set_connected(node_id, true);
    }

    /// A node's supervisor reports a lost connection: the node is removed
    /// from selection.  Guilds keep their (now stale) assignment and are
    /// reassigned on their next `ensure_node`.
    pub fn node_disconnected(&mut self, node_id: usize)
        requires
            old(self).wf(),
            node_id < old(self).pool@.len(),
        ensures
            final(self).wf(),
            final(self).states@ == old(self).states@,
            final(self).pool@ == old(self).pool@.update(
                node_id as int,
                (NodeInfo { connected: false, load: old(self).pool@[node_id as int].load }),
            ),
    {
        self.pool.set_connected(node_id, false);
    }

    /// Ensures the guild has a connected node and returns its index.
    ///
    /// A guild already assigned to a connected node keeps it and nothing
    /// changes.  Otherwise the connected node with the fewest assigned
    /// guilds is picked (lowest index on ties): the guild's session —
    /// created empty here if the guild had none — records the new node,
    /// whose load grows by one, and a stale previous assignment is
    /// released, its node's load shrinking by one.  With no connected
    /// node at all, `NoAvailableNode` and nothing changes.
    pub fn ensure_node(&mut self, guild_id: u64) -> (r: Result<usize, MusicError>)
        requires
            old(self).wf(),
        ensures
            final(self).wf(),
            final(self).pool@.len() == old(self).pool@.len(),
            match r {
                Ok(n) => node_ensured(
                    old(self).states@,
                    old(self).pool@,
                    final(self).states@,
                    final(self).pool@,
                    guild_id,
                    n,
                ),
                Err(e) => {
                    &&& e == MusicError::NoAvailableNode
                    &&& !has_connected(old(self).pool@)
                    &&& final(self).states@ == old(self).states@
                    &&& final(self).pool@ == old(self).pool@
                },
            },
    {
        let ghost s1 = self.states@;
        let ghost pool1 = self.pool@;
        let had = self.states.take(guild_id);
        let existed = had.is_some();
        let mut st = match had {
            Some(s) => s,
            None => PlayerState::new(None, None),
        };
        // Keep an existing assignment to a connected node.
        let keep = match st.node() {
            Some(n) => {
                if n < self.pool.len() && self.pool.is_connected(n) {
                    Some(n)
                } else {
                    None
                }
            },
            None => None,
        };
        if let Some(n) = keep {
            self.states.put(guild_id, st);
            proof {
                assert(self.states@ =~= s1);
            }
            return Ok(n);
        }
        match self.pool.best_node() {
            None => {
                // No connected node: restore everything untouched.
                if existed {
                    self.states.put(guild_id, st);
                }
                proof {
                    assert(self.states@ =~= s1);
                }
                Err(MusicError::NoAvailableNode)
            },
            Some(best) => {
                // Release a stale assignment before taking the new one.
                let stale = st.node();
                if let Some(n_old) = stale {
                    proof {
                        assert(assigned_guilds(s1, n_old as int).contains(guild_id));
                        lemma_remove_present_len(assigned_guilds(s1, n_old as int), guild_id);
                    }
                    self.pool.remove_load(n_old);
                }
                st.set_node(Some(best));
                self.states.put(guild_id, st);
                proof {
                    // The new target differs from any stale node: the
                    // stale one is not connected, the best one is.
                    assert(stale is Some ==> stale != Some(best));
                }
                // Bound the new load: the guilds assigned to `best` are
                // among the other sessions, which all fit in the store.
                let total = self.states.len();
                proof {
                    let t = assigned_guilds(s1, best as int);
                    assert(t.finite());
                    assert(!t.contains(guild_id));
                    assert(t.subset_of(self.states@.dom().remove(guild_id)));
                    vstd::set_lib::lemma_len_subset(t, self.states@.dom().remove(guild_id));
                    lemma_remove_present_len(self.states@.dom(), guild_id);
                    assert(t.len() <= total - 1);
                    assert(pool1[best as int].load < u64::MAX);
                }
                self.pool.add_load(best);
                proof {
                    lemma_loads_after_update(pool1, self.pool@, s1, self.states@, guild_id);
                    assert(self.states@.remove(guild_id) =~= s1.remove(guild_id));
                }
                Ok(best)
            },
        }
    }

    /// The play command for the guild's current front entry on `node_id`.
    fn build_play(&self, guild_id: u64, node_id: usize) -> (a: Action)
        requires
            self.states@.contains_key(guild_id),
            self.states@[guild_id].playing(),
        ensures
            a == (Action::Play {
                guild_id,
                node_id,
                track: self.states@[guild_id].queue[0].track,
                volume: self.states@[guild_id].effective_volume(),
            }),
    {
        match self.states.get(guild_id) {
            Some(p) => {
                let vol = p.effective_volume();
                match p.current_track() {
                    Some(t) => Action::Play { guild_id, node_id, track: t, volume: vol },
                    None => {
                        proof {
                            assert(false);
                        }
                        Action::DestroyPlayer { guild_id }
                    },
                }
            },
            None => {
                proof {
                    assert(false);
                }
                Action::DestroyPlayer { guild_id }
            },
        }
    }

    /// Appends a track to the guild's queue.  On an idle guild — the
    /// session is created here if the guild had none, with the configured
    /// volume — the entry becomes the current track: a node is ensured
    /// and the play command returned (`Idle → Playing`).  On a playing
    /// guild the queue only grows.  With no connected node available the
    /// engine is left untouched and `NoAvailableNode` returned.
    pub fn enqueue(
        &mut self,
        guild_id: u64,
        submitter: u64,
        track: Track,
        volume_cfg: Option<u64>,
    ) -> (r: Result<Option<Action>, MusicError>)
        requires
            old(self).wf(),
            old(self).states@.contains_key(guild_id) ==> old(
                self,
            ).states@[guild_id].queue.len() < usize::MAX,
        ensures
            final(self).wf(),
            final(self).pool@.len() == old(self).pool@.len(),
            ({
                let entry = QueueEntry { submitter, track };
                let had = old(self).states@.contains_key(guild_id);
                let m0 = if had {
                    old(self).states@[guild_id]
                } else {
                    fresh_model(volume_cfg)
                };
                match r {
                    Ok(a) => {
                        if had && old(self).states@[guild_id].playing() {
                            &&& a is None
                            &&& final(self).states@ == old(self).states@.insert(
                                guild_id,
                                spec_enqueue(m0, entry),
                            )
                            &&& final(self).pool@ == old(self).pool@
                        } else {
                            a matches Some(act) && (act matches Action::Play {
                                guild_id: ag,
                                node_id: an,
                                track: at,
                                volume: av,
                            } && ag == guild_id && node_ensured(
                                old(self).states@.insert(guild_id, spec_enqueue(m0, entry)),
                                old(self).pool@,
                                final(self).states@,
                                final(self).pool@,
                                guild_id,
                                an,
                            ) && at == entry.track && av == m0.effective_volume())
                        }
                    },
                    Err(e) => {
                        &&& e == MusicError::NoAvailableNode
                        &&& !has_connected(old(self).pool@)
                        &&& !(had && old(self).states@[guild_id].playing())
                        &&& final(self).states@ == old(self).states@
                        &&& final(self).pool@ == old(self).pool@
                    },
                }
            }),
    {
        let entry = QueueEntry { submitter, track };
        let ghost s1 = self.states@;
        let ghost pool1 = self.pool@;
        let ghost m0 = if s1.contains_key(guild_id) {
            s1[guild_id]
        } else {
            fresh_model(volume_cfg)
        };
        let had0 = self.states.take(guild_id);
        let existed = had0.is_some();
        let mut st = match had0 {
            Some(s) => s,
            None => PlayerState::new(None, volume_cfg),
        };
        if st.is_playing() {
            st.enqueue_entry(entry);
            self.states.put(guild_id, st);
            proof {
                lemma_loads_after_update(pool1, self.pool@, s1, self.states@, guild_id);
            }
            return Ok(None);
        }
        // Idle: make sure playback can start before touching the queue.
        let assigned_node = st.node();
        let assigned_ok = match assigned_node {
            Some(n) => n < self.pool.len() && self.pool.is_connected(n),
            None => false,
        };
        if !assigned_ok {
            match self.pool.best_node() {
                None => {
                    if existed {
                        self.states.put(guild_id, st);
                    }
                    proof {
                        assert(self.states@ =~= s1);
                    }
                    return Err(MusicError::NoAvailableNode);
                },
                Some(b) => {
                    proof {
                        assert(self.pool@[b as int].connected);
                        assert(has_connected(self.pool@));
                    }
                },
            }
        }
        proof {
            if assigned_ok {
                match assigned_node {
                    Some(n) => {
                        assert(self.pool@[n as int].connected);
                        assert(has_connected(self.pool@));
                    },
                    None => {
                        assert(false);
                    },
                }
            }
        }
        st.enqueue_entry(entry);
        self.states.put(guild_id, st);
        proof {
            lemma_loads_after_update(pool1, self.pool@, s1, self.states@, guild_id);
            assert(self.states@ =~= s1.insert(guild_id, spec_enqueue(m0, entry)));
        }
        let n = match self.ensure_node(guild_id) {
            Ok(n) => n,
            Err(e) => {
                proof {
                    assert(false);
                }
                return Err(e);
            },
        };
        let act = self.build_play(guild_id, n);
        Ok(Some(act))
    }

    /// Starts (or restarts) playback of the guild's current track: a
    /// node is ensured and the play command, carrying the effective
    /// volume, returned.  An idle guild, or one with no session, plays
    /// nothing and nothing changes.
    pub fn start_playing(&mut self, guild_id: u64) -> (r: Result<Option<Action>, MusicError>)
        requires
            old(self).wf(),
        ensures
            final(self).wf(),
            final(self).pool@.len() == old(self).pool@.len(),
            match r {
                Ok(a) => {
                    if old(self).states@.contains_key(guild_id)
                        && old(self).states@[guild_id].playing() {
                        a matches Some(act) && (act matches Action::Play {
                            guild_id: ag,
                            node_id: an,
                            track: at,
                            volume: av,
                        } && ag == guild_id && node_ensured(
                            old(self).states@,
                            old(self).pool@,
                            final(self).states@,
                            final(self).pool@,
                            guild_id,
                            an,
                        ) && at == old(self).states@[guild_id].queue[0].track && av == old(
                            self,
                        ).states@[guild_id].effective_volume())
                    } else {
                        &&& a is None
                        &&& final(self).states@ == old(self).states@
                        &&& final(self).pool@ == old(self).pool@
                    }
                },
                Err(e) => {
                    &&& e == MusicError::NoAvailableNode
                    &&& old(self).states@.contains_key(guild_id)
                    &&& old(self).states@[guild_id].playing()
                    &&& !has_connected(old(self).pool@)
                    &&& final(self).states@ == old(self).states@
                    &&& final(self).pool@ == old(self).pool@
                },
            },
    {
        let playing = match self.states.get(guild_id) {
            Some(p) => p.is_playing(),
            None => false,
        };
        if !playing {
            return Ok(None);
        }
        match self.ensure_node(guild_id) {
            Ok(n) => Ok(Some(self.build_play(guild_id, n))),
            Err(e) => Err(e),
        }
    }

    /// Advances the guild's queue: pops the entry that was playing
    /// (returned as `prev`), clears the vote tally, then either starts
    /// the new front entry or — when the queue emptied — tears the
    /// session down (`Playing → Idle`, with disconnect).  A guild with no
    /// session is a no-op.  `NoAvailableNode` means the queue advanced
    /// but the next track could not be started anywhere.
    pub fn play_next(&mut self, guild_id: u64) -> (r: Result<
        (Option<QueueEntry>, Vec<Action>),
        MusicError,
    >)
        requires
            old(self).wf(),
        ensures
            final(self).wf(),
            final(self).pool@.len() == old(self).pool@.len(),
            !old(self).states@.contains_key(guild_id) ==> (r matches Ok((prev, acts)) && prev
                is None && acts@.len() == 0) && final(self).states@ == old(self).states@
                && final(self).pool@ == old(self).pool@,
            old(self).states@.contains_key(guild_id) ==> match r {
                Ok((prev, acts)) => advance_applied(
                    old(self).states@,
                    old(self).pool@,
                    final(self).states@,
                    final(self).pool@,
                    guild_id,
                    prev,
                    acts@,
                ),
                Err(e) => {
                    &&& e == MusicError::NoAvailableNode
                    &&& spec_advance(old(self).states@[guild_id]).queue.len() > 0
                    &&& !has_connected(old(self).pool@)
                    &&& final(self).states@ == old(self).states@.insert(
                        guild_id,
                        spec_advance(old(self).states@[guild_id]),
                    )
                    &&& final(self).pool@ == old(self).pool@
                },
            },
    {
        let ghost s1 = self.states@;
        let ghost pool1 = self.pool@;
        let had = self.states.take(guild_id);
        match had {
            None => {
                proof {
                    assert(self.states@ =~= s1);
                }
                Ok((None, Vec::new()))
            },
            Some(mut st) => {
                let prev = st.advance();
                let playing = st.is_playing();
                self.states.put(guild_id, st);
                proof {
                    lemma_loads_after_update(pool1, self.pool@, s1, self.states@, guild_id);
                    assert(self.states@ =~= s1.insert(
                        guild_id,
                        spec_advance(s1[guild_id]),
                    ));
                }
                if playing {
                    match self.ensure_node(guild_id) {
                        Ok(n) => {
                            let act = self.build_play(guild_id, n);
                            let mut acts: Vec<Action> = Vec::new();
                            acts.push(act);
                            Ok((prev, acts))
                        },
                        Err(e) => Err(e),
                    }
                } else {
                    let acts = self.disconnect(guild_id);
                    proof {
                        assert(self.states@ =~= s1.remove(guild_id));
                    }
                    Ok((prev, acts))
                }
            },
        }
    }

    /// Tears the guild's session down: the gateway is told to leave the
    /// voice channel, the node-side player is destroyed, the session is
    /// removed and its node assignment released.  A guild with no session
    /// is a no-op: success, no actions issued.
    pub fn disconnect(&mut self, guild_id: u64) -> (acts: Vec<Action>)
        requires
            old(self).wf(),
        ensures
            final(self).wf(),
            final(self).pool@.len() == old(self).pool@.len(),
            !old(self).states@.contains_key(guild_id) ==> {
                &&& final(self).states@ == old(self).states@
                &&& final(self).pool@ == old(self).pool@
                &&& acts@.len() == 0
            },
            old(self).states@.contains_key(guild_id) ==> {
                &&& final(self).states@ == old(self).states@.remove(guild_id)
                &&& teardown_pool(old(self).pool@, old(self).states@, guild_id, final(self).pool@)
                &&& acts@.len() == 2
                &&& acts@[0] == (Action::Gateway { command: spec_leave_command(guild_id) })
                &&& acts@[1] == (Action::DestroyPlayer { guild_id })
            },
    {
        let ghost s1 = self.states@;
        let ghost pool1 = self.pool@;
        let had = self.states.take(guild_id);
        match had {
            None => {
                proof {
                    assert(self.states@ =~= s1);
                }
                Vec::new()
            },
            Some(st) => {
                if let Some(n) = st.node() {
                    proof {
                        assert(assigned_guilds(s1, n as int).contains(guild_id));
                        lemma_remove_present_len(assigned_guilds(s1, n as int), guild_id);
                    }
                    self.pool.remove_load(n);
                }
                proof {
                    lemma_loads_after_update(pool1, self.pool@, s1, self.states@, guild_id);
                }
                let mut acts: Vec<Action> = Vec::new();
                acts.push(Action::Gateway { command: VoiceGatewayCommand::leave(guild_id) });
                acts.push(Action::DestroyPlayer { guild_id });
                acts
            },
        }
    }

    /// Binds the guild's session to a voice channel — creating the
    /// session if the guild had none — and returns the gateway join
    /// command to send.
    pub fn connect(&mut self, guild_id: u64, channel_id: u64) -> (a: Action)
        requires
            old(self).wf(),
        ensures
            final(self).wf(),
            final(self).pool@ == old(self).pool@,
            final(self).states@ == old(self).states@.insert(
                guild_id,
                (PlayerModel {
                    channel_id: Some(channel_id),
                    ..existing_or_fresh(old(self).states@, guild_id)
                }),
            ),
            a == (Action::Gateway { command: spec_join_command(guild_id, channel_id) }),
    {
        let ghost s1 = self.states@;
        let ghost pool1 = self.pool@;
        let had = self.states.take(guild_id);
        let mut st = match had {
            Some(s) => s,
            None => PlayerState::new(None, None),
        };
        st.set_channel(Some(channel_id));
        self.states.put(guild_id, st);
        proof {
            lemma_loads_after_update(pool1, self.pool@, s1, self.states@, guild_id);
        }
        Action::Gateway { command: VoiceGatewayCommand::join(guild_id, channel_id) }
    }

    /// Borrows the guild's queue, front (currently playing) entry first.
    pub fn get_queue(&self, guild_id: u64) -> (r: Option<&crate::queue::MusicQueue>)
        ensures
            match r {
                Some(q) => self.states@.contains_key(guild_id) && q@
                    == self.states@[guild_id].queue,
                None => !self.states@.contains_key(guild_id),
            },
    {
        match self.states.get(guild_id) {
            Some(p) => Some(p.queue_ref()),
            None => None,
        }
    }

    /// The currently playing track in the guild, if any.
    pub fn currently_playing(&self, guild_id: u64) -> (r: Option<Track>)
        ensures
            match r {
                Some(t) => self.states@.contains_key(guild_id)
                    && self.states@[guild_id].playing() && t
                    == self.states@[guild_id].queue[0].track,
                None => !self.states@.contains_key(guild_id) || !self.states@[guild_id].playing(),
            },
    {
        match self.states.get(guild_id) {
            Some(p) => p.current_track(),
            None => None,
        }
    }

    /// How many distinct users voted to skip the guild's current track;
    /// zero for a guild with no session.
    pub fn vote_count(&self, guild_id: u64) -> (n: usize)
        ensures
            n == (if self.states@.contains_key(guild_id) {
                self.states@[guild_id].votes.len()
            } else {
                0
            }),
    {
        match self.states.get(guild_id) {
            Some(p) => p.vote_count(),
            None => 0,
        }
    }

    /// The voice channel the guild's session is bound to, if any.
    pub fn get_channel(&self, guild_id: u64) -> (r: Option<u64>)
        ensures
            r == (if self.states@.contains_key(guild_id) {
                self.states@[guild_id].channel_id
            } else {
                None
            }),
    {
        match self.states.get(guild_id) {
            Some(p) => p.channel(),
            None => None,
        }
    }

    /// The node to use for the guild without assigning it: the assigned
    /// node if it is connected, else the least-loaded connected node.
    pub fn get_node(&self, guild_id: u64) -> (r: Result<usize, MusicError>)
        ensures
            match r {
                Ok(n) => {
                    &&& n < self.pool@.len()
                    &&& self.pool@[n as int].connected
                    &&& if assignment_of(self.states@, guild_id) == Some(n) {
                        true
                    } else {
                        is_best_node(self.pool@, n as int)
                    }
                },
                Err(e) => e == MusicError::NoAvailableNode && !has_connected(self.pool@),
            },
    {
        let assigned = match self.states.get(guild_id) {
            Some(p) => p.node(),
            None => None,
        };
        if let Some(n) = assigned {
            if n < self.pool.len() && self.pool.is_connected(n) {
                return Ok(n);
            }
        }
        match self.pool.best_node() {
            Some(b) => Ok(b),
            None => Err(MusicError::NoAvailableNode),
        }
    }

    /// Releases the guild's node assignment, if any: the node's load
    /// shrinks by one and the session's assignment is cleared.  A guild
    /// with no session or no assignment is left alone.
    pub fn release(&mut self, guild_id: u64)
        requires
            old(self).wf(),
        ensures
            final(self).wf(),
            final(self).pool@.len() == old(self).pool@.len(),
            match assignment_of(old(self).states@, guild_id) {
                Some(n) => {
                    &&& final(self).states@ == old(self).states@.insert(
                        guild_id,
                        (PlayerModel { node_id: None, ..old(self).states@[guild_id] }),
                    )
                    &&& final(self).pool@ == old(self).pool@.update(
                        n as int,
                        (NodeInfo {
                            connected: old(self).pool@[n as int].connected,
                            load: (old(self).pool@[n as int].load - 1) as u64,
                        }),
                    )
                    &&& old(self).pool@[n as int].load >= 1
                },
                None => {
                    &&& final(self).states@ == old(self).states@
                    &&& final(self).pool@ == old(self).pool@
                },
            },
    {
        let ghost s1 = self.states@;
        let ghost pool1 = self.pool@;
        let had = self.states.take(guild_id);
        match had {
            None => {
                proof {
                    assert(self.states@ =~= s1);
                }
            },
            Some(mut st) => {
                let node = st.node();
                match node {
                    None => {
                        self.states.put(guild_id, st);
                        proof {
                            assert(self.states@ =~= s1);
                        }
                    },
                    Some(n) => {
                        proof {
                            assert(assigned_guilds(s1, n as int).contains(guild_id));
                            lemma_remove_present_len(assigned_guilds(s1, n as int), guild_id);
                        }
                        st.set_node(None);
                        self.states.put(guild_id, st);
                        self.pool.remove_load(n);
                        proof {
                            lemma_loads_after_update(
                                pool1,
                                self.pool@,
                                s1,
                                self.states@,
                                guild_id,
                            );
                        }
                    },
                }
            },
        }
    }
}

/// What a vote-skip call did.
#[derive(Clone, Copy, Debug, PartialEq, Eq, Structural)]
pub enum VoteOutcome {
    /// The guild has no session; nothing was counted.
    NoSession,
    /// The vote was tallied (repeats are not re-counted) but the
    /// threshold was not crossed.
    Counted { votes: usize, needed: u64 },
    /// A new vote crossed the threshold: exactly one advance was forced.
    Skipped,
}

impl Client {
    /// Tallies a vote to skip the guild's current track.  Each user
    /// counts once per track; when a *new* vote brings the tally to
    /// `threshold`, exactly one advance is forced (repeat votes never
    /// do).  The tally is cleared whenever the current track changes.
    pub fn vote_skip(&mut self, guild_id: u64, user_id: u64, threshold: u64) -> (r: Result<
        (VoteOutcome, Vec<Action>),
        MusicError,
    >)
        requires
            old(self).wf(),
            old(self).states@.contains_key(guild_id) ==> old(
                self,
            ).states@[guild_id].votes.len() < usize::MAX,
        ensures
            final(self).wf(),
            final(self).pool@.len() == old(self).pool@.len(),
            !old(self).states@.contains_key(guild_id) ==> (r matches Ok((o, acts)) && o
                == VoteOutcome::NoSession && acts@.len() == 0) && final(self).states@ == old(
                self,
            ).states@ && final(self).pool@ == old(self).pool@,
            old(self).states@.contains_key(guild_id) ==> ({
                let m = old(self).states@[guild_id];
                let m2 = spec_vote(m, user_id);
                let crossed = !m.votes.contains(user_id) && m2.votes.len() >= threshold;
                if !crossed {
                    (r matches Ok((o, acts)) && (o matches VoteOutcome::Counted {
                        votes,
                        needed,
                    } && votes == m2.votes.len() && needed == threshold) && acts@.len() == 0)
                        && final(self).states@ == old(self).states@.insert(guild_id, m2)
                        && final(self).pool@ == old(self).pool@
                } else {
                    match r {
                        Ok((o, acts)) => o == VoteOutcome::Skipped && advance_applied(
                            old(self).states@.insert(guild_id, m2),
                            old(self).pool@,
                            final(self).states@,
                            final(self).pool@,
                            guild_id,
                            m2.current(),
                            acts@,
                        ),
                        Err(e) => {
                            &&& e == MusicError::NoAvailableNode
                            &&& spec_advance(m2).queue.len() > 0
                            &&& !has_connected(old(self).pool@)
                            &&& final(self).states@ == old(self).states@.insert(
                                guild_id,
                                spec_advance(m2),
                            )
                            &&& final(self).pool@ == old(self).pool@
                        },
                    }
                }
            }),
    {
        let ghost s1 = self.states@;
        let ghost pool1 = self.pool@;
        let had = self.states.take(guild_id);
        match had {
            None => {
                proof {
                    assert(self.states@ =~= s1);
                }
                Ok((VoteOutcome::NoSession, Vec::new()))
            },
            Some(mut st) => {
                let added = st.add_vote(user_id);
                let votes = st.vote_count();
                self.states.put(guild_id, st);
                proof {
                    lemma_loads_after_update(pool1, self.pool@, s1, self.states@, guild_id);
                    assert(self.states@ =~= s1.insert(
                        guild_id,
                        spec_vote(s1[guild_id], user_id),
                    ));
                }
                if !(added && (votes as u64) >= threshold) {
                    Ok((VoteOutcome::Counted { votes, needed: threshold }, Vec::new()))
                } else {
                    match self.play_next(guild_id) {
                        Ok((_prev, acts)) => Ok((VoteOutcome::Skipped, acts)),
                        Err(e) => Err(e),
                    }
                }
            },
        }
    }

    /// Clamps `volume` to the accepted range and stores it as the
    /// guild's configured volume; while a track is playing on a
    /// connected node the change is applied immediately.  A guild with
    /// no session is left alone (the clamped value is still returned).
    pub fn set_volume(&mut self, guild_id: u64, volume: u64) -> (r: (u64, Option<Action>))
        requires
            old(self).wf(),
        ensures
            final(self).wf(),
            final(self).pool@ == old(self).pool@,
            r.0 == (if volume > crate::player::MAX_VOLUME {
                crate::player::MAX_VOLUME
            } else {
                volume
            }),
            !old(self).states@.contains_key(guild_id) ==> final(self).states@ == old(self).states@
                && r.1 is None,
            old(self).states@.contains_key(guild_id) ==> ({
                let m = old(self).states@[guild_id];
                &&& final(self).states@ == old(self).states@.insert(
                    guild_id,
                    (PlayerModel { volume: Some(r.0), ..m }),
                )
                &&& if m.playing() && (match m.node_id {
                    Some(n) => n < old(self).pool@.len() && old(self).pool@[n as int].connected,
                    None => false,
                }) {
                    r.1 matches Some(Action::SetVolume { guild_id: ag, node_id: an, volume: av })
                        && ag == guild_id && Some(an) == m.node_id && av == r.0
                } else {
                    r.1 is None
                }
            }),
    {
        let clamped = if volume > crate::player::MAX_VOLUME {
            crate::player::MAX_VOLUME
        } else {
            volume
        };
        let ghost s1 = self.states@;
        let ghost pool1 = self.pool@;
        let had = self.states.take(guild_id);
        match had {
            None => {
                proof {
                    assert(self.states@ =~= s1);
                }
                (clamped, None)
            },
            Some(mut st) => {
                st.store_volume(clamped);
                let act = if st.is_playing() {
                    match st.node() {
                        Some(n) => {
                            if n < self.pool.len() && self.pool.is_connected(n) {
                                Some(
                                    Action::SetVolume {
                                        guild_id,
                                        node_id: n,
                                        volume: clamped,
                                    },
                                )
                            } else {
                                None
                            }
                        },
                        None => None,
                    }
                } else {
                    None
                };
                self.states.put(guild_id, st);
                proof {
                    lemma_loads_after_update(pool1, self.pool@, s1, self.states@, guild_id);
                }
                (clamped, act)
            },
        }
    }

    /// Removes the waiting entry at `index` (position 1 or later) from
    /// the guild's queue; the currently-playing front entry, indices out
    /// of range, and guilds without a session are left alone.
    pub fn remove(&mut self, guild_id: u64, index: usize) -> (removed: Option<QueueEntry>)
        requires
            old(self).wf(),
        ensures
            final(self).wf(),
            final(self).pool@ == old(self).pool@,
            !old(self).states@.contains_key(guild_id) ==> removed is None && final(self).states@
                == old(self).states@,
            old(self).states@.contains_key(guild_id) ==> ({
                let m = old(self).states@[guild_id];
                if 1 <= index < m.queue.len() {
                    removed == Some(m.queue[index as int]) && final(self).states@ == old(
                        self,
                    ).states@.insert(
                        guild_id,
                        (PlayerModel { queue: m.queue.remove(index as int), ..m }),
                    )
                } else {
                    removed is None && final(self).states@ == old(self).states@
                }
            }),
    {
        let ghost s1 = self.states@;
        let ghost pool1 = self.pool@;
        let had = self.states.take(guild_id);
        match had {
            None => {
                proof {
                    assert(self.states@ =~= s1);
                }
                None
            },
            Some(mut st) => {
                let removed = st.remove_at(index);
                self.states.put(guild_id, st);
                proof {
                    lemma_loads_after_update(pool1, self.pool@, s1, self.states@, guild_id);
                    if !(1 <= index < s1[guild_id].queue.len()) {
                        assert(self.states@ =~= s1);
                    }
                }
                removed
            },
        }
    }

    /// Removes every waiting entry submitted by `submitter` from the
    /// guild's queue (the currently-playing front entry stays) and
    /// returns how many were removed.
    pub fn remove_all(&mut self, guild_id: u64, submitter: u64) -> (n: usize)
        requires
            old(self).wf(),
        ensures
            final(self).wf(),
            final(self).pool@ == old(self).pool@,
            !old(self).states@.contains_key(guild_id) ==> n == 0 && final(self).states@ == old(
                self,
            ).states@,
            old(self).states@.contains_key(guild_id) ==> ({
                let m = old(self).states@[guild_id];
                let q2 = crate::queue::spec_remove_submitter(m.queue, submitter);
                &&& final(self).states@ == old(self).states@.insert(
                    guild_id,
                    (PlayerModel { queue: q2, ..m }),
                )
                &&& n == m.queue.len() - q2.len()
            }),
    {
        let ghost s1 = self.states@;
        let ghost pool1 = self.pool@;
        let had = self.states.take(guild_id);
        match had {
            None => {
                proof {
                    assert(self.states@ =~= s1);
                }
                0
            },
            Some(mut st) => {
                let n = st.remove_submitter(submitter);
                self.states.put(guild_id, st);
                proof {
                    lemma_loads_after_update(pool1, self.pool@, s1, self.states@, guild_id);
                }
                n
            },
        }
    }
}

/// The default vote-skip threshold: at least half the listeners, rounded
/// up.
pub fn majority_threshold(listeners: u64) -> (t: u64)
    ensures
        t == (listeners + 1) / 2,
{
    listeners / 2 + listeners % 2
}

/// Counts the users in `voice_states` (pairs of user id and channel id)
/// that sit in `channel_id` — the listeners a vote-skip majority is
/// measured against.
#[verifier::loop_isolation(false)]
pub fn count_listeners(voice_states: &Vec<(u64, u64)>, channel_id: u64) -> (n: usize)
    ensures
        n == voice_states@.filter(|p: (u64, u64)| p.1 == channel_id).len(),
{
    let ghost pred = |p: (u64, u64)| p.1 == channel_id;
    let mut n: usize = 0;
    let mut i: usize = 0;
    while i < voice_states.len()
        invariant
            0 <= i <= voice_states@.len(),
            n == voice_states@.take(i as int).filter(pred).len(),
        decreases voice_states@.len() - i,
    {
        proof {
            reveal(Seq::filter);
            assert(voice_states@.take(i + 1).drop_last() =~= voice_states@.take(i as int));
            assert(voice_states@.take(i + 1).last() == voice_states@[i as int]);
        }
        if voice_states[i].1 == channel_id {
            proof {
                voice_states@.take(i as int).lemma_filter_len(pred);
            }
            n = n + 1;
        }
        i = i + 1;
    }
    proof {
        assert(voice_states@.take(voice_states@.len() as int) =~= voice_states@);
    }
    n
}

} // verus!
