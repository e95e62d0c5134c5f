//! Unit behavior of the smaller pieces: duration formatting, thresholds,
//! listener counting, and the supervisor state machine.

use hourai_music::client::{count_listeners, majority_threshold};
use hourai_music::duration::format_duration;
use hourai_music::supervisor::{
    supervisor_step, SupervisorAction, SupervisorEvent, SupervisorState,
};

#[test]
fn format_duration_under_an_hour() {
    assert_eq!(format_duration(0), "00:00");
    assert_eq!(format_duration(9), "00:09");
    assert_eq!(format_duration(59), "00:59");
    assert_eq!(format_duration(60), "01:00");
    assert_eq!(format_duration(3599), "59:59");
}

#[test]
fn format_duration_with_hours() {
    assert_eq!(format_duration(3600), "01:00:00");
    assert_eq!(format_duration(3661), "01:01:01");
    assert_eq!(format_duration(7325), "02:02:05");
    // hour counts above two digits keep all their digits
    assert_eq!(format_duration(100 * 3600), "100:00:00");
}

#[test]
fn majority_threshold_even_and_odd() {
    assert_eq!(majority_threshold(0), 0);
    assert_eq!(majority_threshold(1), 1);
    assert_eq!(majority_threshold(2), 1);
    assert_eq!(majority_threshold(3), 2);
    assert_eq!(majority_threshold(4), 2);
    assert_eq!(majority_threshold(5), 3);
}

#[test]
fn count_listeners_matches_channel() {
    let states: Vec<(u64, u64)> = vec![(1, 10), (2, 10), (3, 11), (4, 10), (5, 12)];
    assert_eq!(count_listeners(&states, 10), 3);
    assert_eq!(count_listeners(&states, 11), 1);
    assert_eq!(count_listeners(&states, 99), 0);
    let empty: Vec<(u64, u64)> = Vec::new();
    assert_eq!(count_listeners(&empty, 10), 0);
}

#[test]
fn supervisor_happy_path() {
    let (s, a) = supervisor_step(SupervisorState::Disconnected, SupervisorEvent::Started);
    assert_eq!(s, SupervisorState::Resolving);
    assert_eq!(a, Some(SupervisorAction::Resolve));
    let (s, a) = supervisor_step(s, SupervisorEvent::Resolved { count: 2 });
    assert_eq!(s, SupervisorState::Connecting { count: 2, next: 0 });
    assert_eq!(a, Some(SupervisorAction::TryConnect { index: 0 }));
    let (s, a) = supervisor_step(s, SupervisorEvent::ConnectFailed);
    assert_eq!(s, SupervisorState::Connecting { count: 2, next: 1 });
    assert_eq!(a, Some(SupervisorAction::TryConnect { index: 1 }));
    let (s, a) = supervisor_step(s, SupervisorEvent::ConnectSucceeded);
    assert_eq!(s, SupervisorState::Connected);
    assert_eq!(a, Some(SupervisorAction::ConsumeEvents));
    // the stream ending restarts the loop immediately, no terminal state
    let (s, a) = supervisor_step(s, SupervisorEvent::StreamEnded);
    assert_eq!(s, SupervisorState::Resolving);
    assert_eq!(a, Some(SupervisorAction::Resolve));
}

#[test]
fn supervisor_backs_off_on_failures() {
    // empty candidate list: fixed backoff, retry from resolving
    let (s, a) = supervisor_step(SupervisorState::Resolving, SupervisorEvent::Resolved {
        count: 0,
    });
    assert_eq!(s, SupervisorState::Resolving);
    assert_eq!(a, Some(SupervisorAction::Backoff));
    // resolution failure backs off too
    let (s, a) = supervisor_step(SupervisorState::Resolving, SupervisorEvent::ResolveFailed);
    assert_eq!(s, SupervisorState::Resolving);
    assert_eq!(a, Some(SupervisorAction::Backoff));
    // exhausting candidates goes back to resolving after a backoff
    let (s, a) = supervisor_step(
        SupervisorState::Connecting { count: 1, next: 0 },
        SupervisorEvent::ConnectFailed,
    );
    assert_eq!(s, SupervisorState::Resolving);
    assert_eq!(a, Some(SupervisorAction::Backoff));
}

#[test]
fn supervisor_ignores_mismatched_events() {
    let (s, a) = supervisor_step(SupervisorState::Connected, SupervisorEvent::ConnectFailed);
    assert_eq!(s, SupervisorState::Connected);
    assert_eq!(a, None);
    let (s, a) = supervisor_step(SupervisorState::Resolving, SupervisorEvent::StreamEnded);
    assert_eq!(s, SupervisorState::Resolving);
    assert_eq!(a, None);
}
