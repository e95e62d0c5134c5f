//! Classification and routing of inbound node events.
//!
//! A track-end event advances the queue only when it reports a natural
//! completion or a load failure.  The reasons `Stopped`, `Replaced` and
//! `Cleanup` are the *effect* of a transition some other path already
//! performed (a skip, a disconnect), so routing them into another advance
//! would skip a second track; the dispatcher must drop them.  Events that
//! carry no lifecycle meaning, and unrecognized ones, are dropped too.

use vstd::prelude::*;

use crate::client::{advance_applied, Action, Client};
use crate::player::spec_advance;
use crate::pool::has_connected;
use crate::track::QueueEntry;
use crate::MusicError;

verus! {

/// Why a node reported the end of a track.
#[derive(Clone, Copy, Debug, PartialEq, Eq, Structural)]
pub enum TrackEndReason {
    /// The track played to its natural end.
    Finished,
    /// The node failed to load or decode the track.
    LoadFailed,
    /// Playback was stopped explicitly.
    Stopped,
    /// Another play command replaced the track.
    Replaced,
    /// The player was cleaned up node-side.
    Cleanup,
}

/// An inbound event from an audio node, reduced to what the engine reads.
#[derive(Clone, Copy, Debug, PartialEq, Eq, Structural)]
pub enum NodeEvent {
    /// A track started playing; observability only.
    TrackStart { guild_id: u64 },
    /// A track stopped playing for `reason`.
    TrackEnd { guild_id: u64, reason: TrackEndReason },
    /// Node statistics; observability only.
    Stats,
    /// Any unrecognized event; dropped, never fatal.
    Unknown,
}

/// Only a natural completion or a load failure may drive an advance.
pub open spec fn spec_should_advance(reason: TrackEndReason) -> bool {
    reason == TrackEndReason::Finished || reason == TrackEndReason::LoadFailed
}

/// Whether a track-end reason is routed to the queue advance.
pub fn should_advance(reason: TrackEndReason) -> (b: bool)
    ensures
        b == spec_should_advance(reason),
{
    match reason {
        TrackEndReason::Finished => true,
        TrackEndReason::LoadFailed => true,
        _ => false,
    }
}

impl Client {
    /// Routes one inbound node event.
    ///
    /// `TrackEnd` with reason `Finished` or `LoadFailed` advances the
    /// guild's queue exactly as `play_next` does.  Every other event —
    /// `TrackStart`, statistics, unrecognized variants, and `TrackEnd`
    /// with reasons `Stopped`, `Replaced` or `Cleanup` — leaves the
    /// engine untouched and issues nothing, so a transition already
    /// driven by another path is never performed a second time.
    pub fn handle_node_event(&mut self, event: NodeEvent) -> (r: Result<
        (Option<QueueEntry>, Vec<Action>),
        MusicError,
    >)
        requires
            old(self).wf(),
        ensures
            final(self).wf(),
            final(self).pool@.len() == old(self).pool@.len(),
            !(event matches NodeEvent::TrackEnd { guild_id, reason }
                && spec_should_advance(reason)) ==> (r matches Ok((prev, acts)) && prev is None
                && acts@.len() == 0) && final(self).states@ == old(self).states@
                && final(self).pool@ == old(self).pool@,
            (event matches NodeEvent::TrackEnd { guild_id, reason } && spec_should_advance(
                reason,
            )) ==> ({
                let g = event->TrackEnd_guild_id;
                &&& !old(self).states@.contains_key(g) ==> (r matches Ok((prev, acts)) && prev
                    is None && acts@.len() == 0) && final(self).states@ == old(self).states@
                    && final(self).pool@ == old(self).pool@
                &&& old(self).states@.contains_key(g) ==> match r {
                    Ok((prev, acts)) => advance_applied(
                        old(self).states@,
                        old(self).pool@,
                        final(self).states@,
                        final(self).pool@,
                        g,
                        prev,
                        acts@,
                    ),
                    Err(e) => {
                        &&& e == MusicError::NoAvailableNode
                        &&& !has_connected(old(self).pool@)
                        &&& final(self).states@ == old(self).states@.insert(
                            g,
                            spec_advance(old(self).states@[g]),
                        )
                        &&& final(self).pool@ == old(self).pool@
                    },
                }
            }),
    {
        match event {
            NodeEvent::TrackEnd { guild_id, reason } => {
                if should_advance(reason) {
                    self.play_next(guild_id)
                } else {
                    Ok((None, Vec::new()))
                }
            },
            _ => Ok((None, Vec::new())),
        }
    }
}

} // verus!
