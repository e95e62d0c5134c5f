//! Playback-orchestration engine for a multi-guild audio bot.
//!
//! The crate keeps one independent playback session per guild: a FIFO queue
//! of requested tracks, the currently-playing entry, a vote-skip tally, and
//! the assignment of the guild to one of a small pool of external audio
//! nodes.  All decisions (what to play next, which node to pick, when to
//! tear a session down) are made here and verified; the surrounding process
//! performs the network calls that the decisions prescribe.

use vstd::prelude::*;

pub mod client;
pub mod dispatch;
pub mod duration;
pub mod laws;
pub mod player;
pub mod session;
pub mod pool;
pub mod queue;
pub mod store;
pub mod supervisor;
pub mod track;

verus! {

/// Errors surfaced to the command layer.
#[derive(Clone, Copy, Debug, PartialEq, Eq, Structural)]
pub enum MusicError {
    /// No connected audio node is available to serve the guild.
    NoAvailableNode,
}

} // verus!
