//! End-to-end behavior of the playback engine: queue lifecycle, node
//! selection, vote-skip, and teardown.

use hourai_music::client::{Action, Client, VoteOutcome};
use hourai_music::dispatch::{NodeEvent, TrackEndReason};
use hourai_music::track::Track;
use hourai_music::MusicError;

fn track(title: &str, requester: u64) -> Track {
    Track {
        handle: format!("handle:{}", title),
        title: String::from(title),
        length_ms: 180_000,
        requester,
    }
}

/// A one-node engine with the node connected.
fn one_node_client() -> Client {
    let mut c = Client::new(1);
    c.node_connected(0);
    c
}

#[test]
fn first_enqueue_starts_playing() {
    let mut c = one_node_client();
    let r = c.enqueue(7, 100, track("a", 100), None);
    match r {
        Ok(Some(Action::Play { guild_id, node_id, track: t, volume })) => {
            assert_eq!(guild_id, 7);
            assert_eq!(node_id, 0);
            assert_eq!(t.title, "a");
            assert_eq!(volume, 50); // default volume when none configured
        }
        other => panic!("expected a play action, got {:?}", other),
    }
    assert_eq!(c.currently_playing(7).unwrap().title, "a");
    assert_eq!(c.get_queue(7).unwrap().len(), 1);
}

#[test]
fn later_enqueues_only_grow_the_queue() {
    let mut c = one_node_client();
    c.enqueue(7, 100, track("a", 100), None).unwrap();
    let r2 = c.enqueue(7, 101, track("b", 101), None);
    let r3 = c.enqueue(7, 102, track("c", 102), None);
    assert!(matches!(r2, Ok(None)));
    assert!(matches!(r3, Ok(None)));
    assert_eq!(c.currently_playing(7).unwrap().title, "a");
    assert_eq!(c.get_queue(7).unwrap().len(), 3);
}

#[test]
fn enqueue_uses_configured_volume() {
    let mut c = one_node_client();
    match c.enqueue(7, 100, track("a", 100), Some(80)) {
        Ok(Some(Action::Play { volume, .. })) => assert_eq!(volume, 80),
        other => panic!("expected a play action, got {:?}", other),
    }
}

#[test]
fn enqueue_without_any_node_fails_and_changes_nothing() {
    let mut c = Client::new(1); // configured but never connected
    let r = c.enqueue(7, 100, track("a", 100), None);
    assert!(matches!(r, Err(MusicError::NoAvailableNode)));
    assert!(c.get_queue(7).is_none());
    assert_eq!(c.pool.get(0).load, 0);
}

#[test]
fn advance_pops_exactly_one_entry() {
    let mut c = one_node_client();
    c.enqueue(7, 100, track("a", 100), None).unwrap();
    c.enqueue(7, 101, track("b", 101), None).unwrap();
    c.enqueue(7, 102, track("c", 102), None).unwrap();
    let (prev, acts) = c.play_next(7).unwrap();
    assert_eq!(prev.unwrap().track.title, "a");
    assert_eq!(acts.len(), 1);
    match &acts[0] {
        Action::Play { track: t, .. } => assert_eq!(t.title, "b"),
        other => panic!("expected a play action, got {:?}", other),
    }
    // the former second entry is now current, one entry fewer remains
    assert_eq!(c.currently_playing(7).unwrap().title, "b");
    assert_eq!(c.get_queue(7).unwrap().len(), 2);
}

#[test]
fn advance_on_last_entry_disconnects() {
    let mut c = one_node_client();
    c.enqueue(7, 100, track("a", 100), None).unwrap();
    assert_eq!(c.pool.get(0).load, 1);
    let (prev, acts) = c.play_next(7).unwrap();
    assert_eq!(prev.unwrap().track.title, "a");
    assert_eq!(acts.len(), 2);
    match &acts[0] {
        Action::Gateway { command } => {
            assert_eq!(command.opcode, 4);
            assert_eq!(command.guild_id, 7);
            assert_eq!(command.channel_id, None);
            assert!(!command.self_mute);
            assert!(!command.self_deaf);
        }
        other => panic!("expected a gateway leave, got {:?}", other),
    }
    assert!(matches!(acts[1], Action::DestroyPlayer { guild_id: 7 }));
    // session gone, node released
    assert!(c.get_queue(7).is_none());
    assert_eq!(c.pool.get(0).load, 0);
}

#[test]
fn play_next_without_session_is_a_noop() {
    let mut c = one_node_client();
    let (prev, acts) = c.play_next(99).unwrap();
    assert!(prev.is_none());
    assert!(acts.is_empty());
}

#[test]
fn vote_skip_counts_unique_voters_and_forces_one_advance() {
    let mut c = one_node_client();
    c.enqueue(7, 100, track("a", 100), None).unwrap();
    c.enqueue(7, 101, track("b", 101), None).unwrap();
    let threshold = hourai_music::client::majority_threshold(3);
    assert_eq!(threshold, 2);
    // first voter
    let (o, acts) = c.vote_skip(7, 1, threshold).unwrap();
    assert_eq!(o, VoteOutcome::Counted { votes: 1, needed: 2 });
    assert!(acts.is_empty());
    // the same voter again: not re-counted, no advance
    let (o, acts) = c.vote_skip(7, 1, threshold).unwrap();
    assert_eq!(o, VoteOutcome::Counted { votes: 1, needed: 2 });
    assert!(acts.is_empty());
    assert_eq!(c.currently_playing(7).unwrap().title, "a");
    // a second distinct voter crosses the threshold: exactly one advance
    let (o, acts) = c.vote_skip(7, 2, threshold).unwrap();
    assert_eq!(o, VoteOutcome::Skipped);
    assert_eq!(acts.len(), 1);
    assert!(matches!(&acts[0], Action::Play { .. }));
    assert_eq!(c.currently_playing(7).unwrap().title, "b");
    // the tally was cleared with the track change
    assert_eq!(c.vote_count(7), 0);
}

#[test]
fn vote_skip_without_session_reports_no_session() {
    let mut c = one_node_client();
    let (o, acts) = c.vote_skip(42, 1, 1).unwrap();
    assert_eq!(o, VoteOutcome::NoSession);
    assert!(acts.is_empty());
}

#[test]
fn ensure_node_assigns_least_loaded_and_release_restores() {
    // Scenario: node 0 carries two guilds, node 1 none.
    let mut c = Client::new(2);
    c.node_connected(0);
    c.enqueue(1, 100, track("a", 100), None).unwrap();
    c.enqueue(2, 100, track("b", 100), None).unwrap();
    c.node_connected(1);
    assert_eq!(c.pool.get(0).load, 2);
    assert_eq!(c.pool.get(1).load, 0);
    // the least-loaded connected node gets the new guild
    let n = c.ensure_node(7).unwrap();
    assert_eq!(n, 1);
    assert_eq!(c.pool.get(1).load, 1);
    // a repeated call keeps the assignment and moves nothing
    assert_eq!(c.ensure_node(7).unwrap(), 1);
    assert_eq!(c.pool.get(1).load, 1);
    // disconnect returns the node's load to 0
    c.disconnect(7);
    assert_eq!(c.pool.get(1).load, 0);
    assert_eq!(c.pool.get(0).load, 2);
}

#[test]
fn ensure_node_reassigns_after_node_loss() {
    let mut c = Client::new(2);
    c.node_connected(0);
    c.enqueue(7, 100, track("a", 100), None).unwrap();
    assert_eq!(c.pool.get(0).load, 1);
    c.node_disconnected(0);
    c.node_connected(1);
    // the stale assignment is released and the guild fails over
    let n = c.ensure_node(7).unwrap();
    assert_eq!(n, 1);
    assert_eq!(c.pool.get(0).load, 0);
    assert_eq!(c.pool.get(1).load, 1);
}

#[test]
fn disconnect_without_state_is_noop_success() {
    let mut c = one_node_client();
    let acts = c.disconnect(12345);
    assert!(acts.is_empty());
    assert_eq!(c.pool.get(0).load, 0);
}

#[test]
fn track_end_finished_advances_and_clears_votes() {
    // Scenario: queue [a(user 100), b(user 101)], playing a, one vote.
    let mut c = one_node_client();
    c.enqueue(7, 100, track("a", 100), None).unwrap();
    c.enqueue(7, 101, track("b", 101), None).unwrap();
    c.vote_skip(7, 55, 10).unwrap();
    assert_eq!(c.vote_count(7), 1);
    let ev = NodeEvent::TrackEnd { guild_id: 7, reason: TrackEndReason::Finished };
    let (prev, acts) = c.handle_node_event(ev).unwrap();
    assert_eq!(prev.unwrap().track.title, "a");
    assert_eq!(acts.len(), 1);
    assert_eq!(c.currently_playing(7).unwrap().title, "b");
    assert_eq!(c.get_queue(7).unwrap().len(), 1); // nothing waiting behind b
    assert_eq!(c.vote_count(7), 0);
}

#[test]
fn track_end_load_failed_also_advances() {
    let mut c = one_node_client();
    c.enqueue(7, 100, track("a", 100), None).unwrap();
    c.enqueue(7, 101, track("b", 101), None).unwrap();
    let ev = NodeEvent::TrackEnd { guild_id: 7, reason: TrackEndReason::LoadFailed };
    c.handle_node_event(ev).unwrap();
    assert_eq!(c.currently_playing(7).unwrap().title, "b");
}

#[test]
fn track_end_replaced_is_ignored() {
    // A Replaced event is the effect of a skip already performed: the
    // dispatcher must not advance a second time.
    let mut c = one_node_client();
    c.enqueue(7, 100, track("a", 100), None).unwrap();
    c.enqueue(7, 101, track("b", 101), None).unwrap();
    for reason in [TrackEndReason::Replaced, TrackEndReason::Stopped, TrackEndReason::Cleanup] {
        let (prev, acts) = c
            .handle_node_event(NodeEvent::TrackEnd { guild_id: 7, reason })
            .unwrap();
        assert!(prev.is_none());
        assert!(acts.is_empty());
    }
    assert_eq!(c.currently_playing(7).unwrap().title, "a");
    assert_eq!(c.get_queue(7).unwrap().len(), 2);
}

#[test]
fn non_lifecycle_events_are_dropped() {
    let mut c = one_node_client();
    c.enqueue(7, 100, track("a", 100), None).unwrap();
    for ev in [NodeEvent::TrackStart { guild_id: 7 }, NodeEvent::Stats, NodeEvent::Unknown] {
        let (prev, acts) = c.handle_node_event(ev).unwrap();
        assert!(prev.is_none());
        assert!(acts.is_empty());
    }
    assert_eq!(c.get_queue(7).unwrap().len(), 1);
}

#[test]
fn connect_builds_join_command_and_binds_channel() {
    let mut c = one_node_client();
    let a = c.connect(7, 555);
    match a {
        Action::Gateway { command } => {
            assert_eq!(command.opcode, 4);
            assert_eq!(command.guild_id, 7);
            assert_eq!(command.channel_id, Some(555));
            assert!(!command.self_mute);
            assert!(!command.self_deaf);
        }
        other => panic!("expected a gateway join, got {:?}", other),
    }
    assert_eq!(c.get_channel(7), Some(555));
    assert_eq!(c.get_channel(8), None);
}

#[test]
fn set_volume_clamps_and_applies_while_playing() {
    let mut c = one_node_client();
    // no session: clamped value returned, nothing applied
    let (v, act) = c.set_volume(7, 999);
    assert_eq!(v, 150);
    assert!(act.is_none());
    // playing: applied immediately on the assigned node
    c.enqueue(7, 100, track("a", 100), None).unwrap();
    let (v, act) = c.set_volume(7, 70);
    assert_eq!(v, 70);
    match act {
        Some(Action::SetVolume { guild_id, node_id, volume }) => {
            assert_eq!(guild_id, 7);
            assert_eq!(node_id, 0);
            assert_eq!(volume, 70);
        }
        other => panic!("expected a volume action, got {:?}", other),
    }
    // the stored volume is used by the next play
    let (_, acts) = c.play_next(7).unwrap();
    assert_eq!(acts.len(), 2); // queue emptied: teardown, not a play
}

#[test]
fn stored_volume_carries_to_next_play() {
    let mut c = one_node_client();
    c.enqueue(7, 100, track("a", 100), None).unwrap();
    c.enqueue(7, 101, track("b", 101), None).unwrap();
    c.set_volume(7, 70);
    let (_, acts) = c.play_next(7).unwrap();
    match &acts[0] {
        Action::Play { volume, .. } => assert_eq!(*volume, 70),
        other => panic!("expected a play action, got {:?}", other),
    }
}

#[test]
fn remove_takes_waiting_entries_only() {
    let mut c = one_node_client();
    c.enqueue(7, 100, track("a", 100), None).unwrap();
    c.enqueue(7, 200, track("b", 200), None).unwrap();
    c.enqueue(7, 200, track("c", 200), None).unwrap();
    c.enqueue(7, 300, track("d", 300), None).unwrap();
    // index 0 is the playing entry: never removed
    assert!(c.remove(7, 0).is_none());
    // waiting entry at index 2 goes
    let gone = c.remove(7, 2).unwrap();
    assert_eq!(gone.track.title, "c");
    assert_eq!(c.get_queue(7).unwrap().len(), 3);
    // out of range: nothing
    assert!(c.remove(7, 9).is_none());
    // everything user 200 still has waiting goes; the front stays
    let n = c.remove_all(7, 200);
    assert_eq!(n, 1);
    assert_eq!(c.get_queue(7).unwrap().len(), 2);
    assert_eq!(c.currently_playing(7).unwrap().title, "a");
}

#[test]
fn remove_all_keeps_playing_entry_of_same_user() {
    let mut c = one_node_client();
    c.enqueue(7, 200, track("a", 200), None).unwrap();
    c.enqueue(7, 200, track("b", 200), None).unwrap();
    let n = c.remove_all(7, 200);
    assert_eq!(n, 1);
    assert_eq!(c.currently_playing(7).unwrap().title, "a");
}

#[test]
fn release_is_idempotent() {
    let mut c = one_node_client();
    // releasing a guild with no assignment (or no session) is a no-op
    c.release(7);
    assert_eq!(c.pool.get(0).load, 0);
    c.enqueue(7, 100, track("a", 100), None).unwrap();
    assert_eq!(c.pool.get(0).load, 1);
    // one release drops the load by exactly one and clears the assignment
    c.release(7);
    assert_eq!(c.pool.get(0).load, 0);
    // a second release changes nothing: the load never goes negative
    c.release(7);
    assert_eq!(c.pool.get(0).load, 0);
}

#[test]
fn start_playing_restarts_current_track() {
    let mut c = one_node_client();
    // nothing to start on a guild without a session
    assert!(matches!(c.start_playing(7), Ok(None)));
    c.enqueue(7, 100, track("a", 100), Some(90)).unwrap();
    match c.start_playing(7) {
        Ok(Some(Action::Play { guild_id, node_id, track: t, volume })) => {
            assert_eq!(guild_id, 7);
            assert_eq!(node_id, 0);
            assert_eq!(t.title, "a");
            assert_eq!(volume, 90);
        }
        other => panic!("expected a play action, got {:?}", other),
    }
}

#[test]
fn get_node_prefers_assignment_then_best() {
    let mut c = Client::new(2);
    assert!(matches!(c.get_node(7), Err(MusicError::NoAvailableNode)));
    c.node_connected(1);
    assert_eq!(c.get_node(7).unwrap(), 1);
    c.node_connected(0);
    c.enqueue(7, 100, track("a", 100), None).unwrap();
    let assigned = c.get_node(7).unwrap();
    assert_eq!(assigned, c.ensure_node(7).unwrap());
}
