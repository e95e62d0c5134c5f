//! Tracks and queue entries: the immutable payloads that flow through a
//! guild's playback queue.

use vstd::prelude::*;

verus! {

/// An immutable playable handle plus display metadata.
///
/// `handle` is the opaque token the audio node understands; the remaining
/// fields are shown to users.
#[derive(Debug, PartialEq, Eq)]
pub struct Track {
    /// Opaque playable handle understood by the audio nodes.
    pub handle: String,
    /// Display title.
    pub title: String,
    /// Track length in milliseconds.
    pub length_ms: u64,
    /// User that requested the track.
    pub requester: u64,
}

impl Clone for Track {
    fn clone(&self) -> (r: Self)
        ensures
            r == *self,
    {
        Track {
            handle: self.handle.clone(),
            title: self.title.clone(),
            length_ms: self.length_ms,
            requester: self.requester,
        }
    }
}

/// A (submitter, track) pair awaiting playback, exclusively owned by one
/// guild's queue until popped.
#[derive(Debug, PartialEq, Eq)]
pub struct QueueEntry {
    /// User that submitted the entry.
    pub submitter: u64,
    /// The track to play.
    pub track: Track,
}

impl Clone for QueueEntry {
    fn clone(&self) -> (r: Self)
        ensures
            r == *self,
    {
        QueueEntry { submitter: self.submitter, track: self.track.clone() }
    }
}

} // verus!
