//! The per-node connection supervisor, as a pure state machine.
//!
//! One supervisor owns one configured node's reconnect loop for the
//! process lifetime: resolve candidate addresses, try a credentialed
//! handshake against each candidate in order, consume the inbound event
//! stream while connected, and on any failure back off and start over —
//! forever, with no terminal state.  The surrounding process performs the
//! I/O each returned action names and feeds the outcome back in as the
//! next event; it also mirrors `Connected`/lost transitions into the
//! engine's node pool, which makes the node visible to selection.

use vstd::prelude::*;

verus! {

/// Where one node's supervisor stands.
#[derive(Clone, Copy, Debug, PartialEq, Eq, Structural)]
pub enum SupervisorState {
    /// Not yet started.
    Disconnected,
    /// Obtaining candidate addresses.
    Resolving,
    /// Trying candidate `next` of `count`, in order.
    Connecting { count: usize, next: usize },
    /// Holding a live connection and consuming its event stream.
    Connected,
}

/// What happened since the supervisor last decided something.
#[derive(Clone, Copy, Debug, PartialEq, Eq, Structural)]
pub enum SupervisorEvent {
    /// The supervisor task started.
    Started,
    /// Resolution produced `count` candidate addresses.
    Resolved { count: usize },
    /// Resolution itself failed.
    ResolveFailed,
    /// The handshake with the current candidate succeeded.
    ConnectSucceeded,
    /// The handshake with the current candidate failed or timed out.
    ConnectFailed,
    /// The inbound event stream ended: remote close or I/O error.
    StreamEnded,
}

/// The I/O the surrounding process must perform next.
#[derive(Clone, Copy, Debug, PartialEq, Eq, Structural)]
pub enum SupervisorAction {
    /// Resolve the node's hostname to candidate addresses.
    Resolve,
    /// Attempt a handshake with candidate `index`, under the
    /// per-attempt connect timeout.
    TryConnect { index: usize },
    /// Sleep the fixed backoff, then resolve again.
    Backoff,
    /// Consume inbound events until the stream ends; the node is now
    /// visible to the pool.
    ConsumeEvents,
}

/// A `Connecting` cursor never runs past its candidate list.
pub open spec fn state_wf(s: SupervisorState) -> bool {
    match s {
        SupervisorState::Connecting { count, next } => next < count,
        _ => true,
    }
}

/// The supervisor's transition function.
///
/// Candidates are tried strictly in order; an exhausted list or a failed
/// resolution backs off and resolves afresh; a lost stream restarts the
/// loop immediately.  An event that does not belong to the current state
/// is ignored.  There is no terminal state.
pub open spec fn spec_supervisor_step(s: SupervisorState, e: SupervisorEvent) -> (
    SupervisorState,
    Option<SupervisorAction>,
) {
    match (s, e) {
        (SupervisorState::Disconnected, SupervisorEvent::Started) => (
            SupervisorState::Resolving,
            Some(SupervisorAction::Resolve),
        ),
        (SupervisorState::Resolving, SupervisorEvent::Resolved { count }) => {
            if count == 0 {
                (SupervisorState::Resolving, Some(SupervisorAction::Backoff))
            } else {
                (
                    SupervisorState::Connecting { count, next: 0 },
                    Some(SupervisorAction::TryConnect { index: 0 }),
                )
            }
        },
        (SupervisorState::Resolving, SupervisorEvent::ResolveFailed) => (
            SupervisorState::Resolving,
            Some(SupervisorAction::Backoff),
        ),
        (SupervisorState::Connecting { .. }, SupervisorEvent::ConnectSucceeded) => (
            SupervisorState::Connected,
            Some(SupervisorAction::ConsumeEvents),
        ),
        (SupervisorState::Connecting { count, next }, SupervisorEvent::ConnectFailed) => {
            if next + 1 < count {
                (
                    SupervisorState::Connecting { count, next: (next + 1) as usize },
                    Some(SupervisorAction::TryConnect { index: (next + 1) as usize }),
                )
            } else {
                (SupervisorState::Resolving, Some(SupervisorAction::Backoff))
            }
        },
        (SupervisorState::Connected, SupervisorEvent::StreamEnded) => (
            SupervisorState::Resolving,
            Some(SupervisorAction::Resolve),
        ),
        _ => (s, None),
    }
}

/// One decision of the supervisor; see [`spec_supervisor_step`].
pub fn supervisor_step(s: SupervisorState, e: SupervisorEvent) -> (r: (
    SupervisorState,
    Option<SupervisorAction>,
))
    requires
        state_wf(s),
    ensures
        r == spec_supervisor_step(s, e),
        state_wf(r.0),
{
    match (s, e) {
        (SupervisorState::Disconnected, SupervisorEvent::Started) => (
            SupervisorState::Resolving,
            Some(SupervisorAction::Resolve),
        ),
        (SupervisorState::Resolving, SupervisorEvent::Resolved { count }) => {
            if count == 0 {
                (SupervisorState::Resolving, Some(SupervisorAction::Backoff))
            } else {
                (
                    SupervisorState::Connecting { count, next: 0 },
                    Some(SupervisorAction::TryConnect { index: 0 }),
                )
            }
        },
        (SupervisorState::Resolving, SupervisorEvent::ResolveFailed) => (
            SupervisorState::Resolving,
            Some(SupervisorAction::Backoff),
        ),
        (SupervisorState::Connecting { count: _, next: _ }, SupervisorEvent::ConnectSucceeded) => (
            SupervisorState::Connected,
            Some(SupervisorAction::ConsumeEvents),
        ),
        (SupervisorState::Connecting { count, next }, SupervisorEvent::ConnectFailed) => {
            if next + 1 < count {
                (
                    SupervisorState::Connecting { count, next: next + 1 },
                    Some(SupervisorAction::TryConnect { index: next + 1 }),
                )
            } else {
                (SupervisorState::Resolving, Some(SupervisorAction::Backoff))
            }
        },
        (SupervisorState::Connected, SupervisorEvent::StreamEnded) => (
            SupervisorState::Resolving,
            Some(SupervisorAction::Resolve),
        ),
        _ => (s, None),
    }
}

} // verus!
