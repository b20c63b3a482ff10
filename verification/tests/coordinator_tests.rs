use disconic::CommandCoordinator;
use disconic::CommandError;
use disconic::PlaybackState;
use disconic::TrackRecord;
use disconic::TransportAction;

fn track(title: &str) -> TrackRecord {
    TrackRecord::new(title.to_string(), None, None, format!("stream://{title}"))
}

fn play(title: &str) -> TransportAction {
    TransportAction::Play { stream_locator: format!("stream://{title}") }
}

const G: u64 = 1001;
const CHANNEL: u64 = 42;

/// The whole first-listen scenario for one group, from the first lazy
/// join to the queue running dry.
#[test]
fn single_group_session_lifecycle() {
    let mut c = CommandCoordinator::new();

    // enqueue "Song A" on a previously unseen group: lazy join + start
    let (position, actions) = c.enqueue(G, Some(CHANNEL), track("Song A")).unwrap();
    assert_eq!(position, 1);
    assert_eq!(
        actions,
        vec![TransportAction::Connect { channel: CHANNEL }, play("Song A")]
    );
    assert_eq!(c.now_playing(G).unwrap().title, "Song A");
    assert_eq!(
        c.registry.get(G).unwrap().playback_state(),
        PlaybackState::Playing
    );

    // enqueue "Song B": appended behind the current track, no action
    let (position, actions) = c.enqueue(G, Some(CHANNEL), track("Song B")).unwrap();
    assert_eq!(position, 2);
    assert!(actions.is_empty());

    // skip(1): "Song B" becomes current and starts
    let (now, action) = c.skip(G, 1).unwrap();
    assert_eq!(now.unwrap().title, "Song B");
    assert_eq!(action, Some(play("Song B")));
    let (current, pending) = c.queue_view(G).unwrap();
    assert_eq!(current.unwrap().title, "Song B");
    assert!(pending.is_empty());

    // removing position 1 fails: only position 0, the current, exists
    assert_eq!(c.remove(G, 1).unwrap_err(), CommandError::NotFound);

    // skip(1) again: queue empty, playback stopped
    let (now, action) = c.skip(G, 1).unwrap();
    assert!(now.is_none());
    assert_eq!(action, Some(TransportAction::Stop));
    assert_eq!(
        c.registry.get(G).unwrap().playback_state(),
        PlaybackState::Stopped
    );
    let (current, pending) = c.queue_view(G).unwrap();
    assert!(current.is_none());
    assert!(pending.is_empty());
}

/// Two commands race to be the first for an unseen group: only one join
/// is ever issued, and both end up with the same session.
#[test]
fn concurrent_first_join_issues_one_connect() {
    let mut c = CommandCoordinator::new();
    let first = c.join(2002, Some(7)).unwrap();
    let second = c.join(2002, Some(8)).unwrap();
    assert_eq!(first, Some(TransportAction::Connect { channel: 7 }));
    assert_eq!(second, None);
    // both callers observe the winner's session, connected at channel 7
    let s = c.registry.get(2002).unwrap();
    assert!(s.is_connected());
    assert_eq!(s.channel, Some(7));
    assert_eq!(c.registry.len(), 1);
}

#[test]
fn commands_without_session_fail_with_not_in_session() {
    let mut c = CommandCoordinator::new();
    assert_eq!(c.pause(G).unwrap_err(), CommandError::NotInSession);
    assert_eq!(c.resume(G).unwrap_err(), CommandError::NotInSession);
    assert_eq!(c.skip(G, 1).unwrap_err(), CommandError::NotInSession);
    assert_eq!(c.stop(G).unwrap_err(), CommandError::NotInSession);
    assert_eq!(c.remove(G, 0).unwrap_err(), CommandError::NotInSession);
    assert_eq!(c.leave(G).unwrap_err(), CommandError::NotInSession);
    assert_eq!(c.now_playing(G).unwrap_err(), CommandError::NotInSession);
    assert_eq!(c.queue_view(G).unwrap_err(), CommandError::NotInSession);
}

#[test]
fn enqueue_without_channel_hint_fails_with_no_channel() {
    let mut c = CommandCoordinator::new();
    assert_eq!(
        c.enqueue(G, None, track("a")).unwrap_err(),
        CommandError::NoChannel
    );
    assert_eq!(c.join(G, None).unwrap_err(), CommandError::NoChannel);
    assert!(!c.contains(G));
}

#[test]
fn pause_from_stopped_session_is_invalid_state() {
    let mut c = CommandCoordinator::new();
    c.join(G, Some(CHANNEL)).unwrap();
    assert_eq!(c.pause(G).unwrap_err(), CommandError::InvalidState);
}

#[test]
fn resume_while_playing_is_invalid_state() {
    let mut c = CommandCoordinator::new();
    c.enqueue(G, Some(CHANNEL), track("a")).unwrap();
    assert_eq!(c.resume(G).unwrap_err(), CommandError::InvalidState);
    assert_eq!(c.pause(G).unwrap(), TransportAction::Pause);
    assert_eq!(c.resume(G).unwrap(), TransportAction::Resume);
}

#[test]
fn leave_drops_the_session() {
    let mut c = CommandCoordinator::new();
    c.enqueue(G, Some(CHANNEL), track("a")).unwrap();
    assert_eq!(c.leave(G).unwrap(), TransportAction::Disconnect);
    assert!(!c.contains(G));
    assert_eq!(c.pause(G).unwrap_err(), CommandError::NotInSession);
}

#[test]
fn transport_disconnect_forces_teardown() {
    let mut c = CommandCoordinator::new();
    c.enqueue(G, Some(CHANNEL), track("a")).unwrap();
    assert!(c.on_disconnected(G));
    assert!(!c.contains(G));
    assert!(!c.on_disconnected(G));
}

#[test]
fn groups_are_fully_independent() {
    let mut c = CommandCoordinator::new();
    c.enqueue(10, Some(1), track("left")).unwrap();
    c.enqueue(20, Some(2), track("right")).unwrap();
    c.pause(10).unwrap();
    assert_eq!(
        c.registry.get(20).unwrap().playback_state(),
        PlaybackState::Playing
    );
    c.leave(10).unwrap();
    assert!(!c.contains(10));
    assert_eq!(c.now_playing(20).unwrap().title, "right");
    assert_eq!(c.registry.len(), 1);
}

#[test]
fn now_playing_on_idle_session_is_not_found() {
    let mut c = CommandCoordinator::new();
    c.join(G, Some(CHANNEL)).unwrap();
    assert_eq!(c.now_playing(G).unwrap_err(), CommandError::NotFound);
}

#[test]
fn album_enqueue_joins_lazily_and_starts_first_track() {
    let mut c = CommandCoordinator::new();
    let actions = c
        .enqueue_all(G, Some(CHANNEL), vec![track("a"), track("b"), track("c")])
        .unwrap();
    assert_eq!(
        actions,
        vec![TransportAction::Connect { channel: CHANNEL }, play("a")]
    );
    let (current, pending) = c.queue_view(G).unwrap();
    assert_eq!(current.unwrap().title, "a");
    assert_eq!(pending.len(), 2);
    assert_eq!(pending[0].title, "b");
    assert_eq!(pending[1].title, "c");
}

#[test]
fn track_finished_notifications_drain_the_queue() {
    let mut c = CommandCoordinator::new();
    c.enqueue_all(G, Some(CHANNEL), vec![track("a"), track("b")])
        .unwrap();
    let (now, action) = c.on_track_finished(G);
    assert_eq!(now.unwrap().title, "b");
    assert_eq!(action, Some(play("b")));
    let (now, action) = c.on_track_finished(G);
    assert!(now.is_none());
    assert_eq!(action, Some(TransportAction::Stop));
    assert_eq!(
        c.registry.get(G).unwrap().playback_state(),
        PlaybackState::Stopped
    );
    // a late notification after teardown is dropped
    c.leave(G).unwrap();
    let (now, action) = c.on_track_finished(G);
    assert!(now.is_none());
    assert!(action.is_none());
}

#[test]
fn stop_keeps_the_session_but_clears_the_queue() {
    let mut c = CommandCoordinator::new();
    c.enqueue(G, Some(CHANNEL), track("a")).unwrap();
    assert_eq!(c.stop(G).unwrap(), Some(TransportAction::Stop));
    assert!(c.contains(G));
    let (current, pending) = c.queue_view(G).unwrap();
    assert!(current.is_none());
    assert!(pending.is_empty());
    assert_eq!(c.stop(G).unwrap(), None);
}

#[test]
fn remove_reindexes_through_the_coordinator() {
    let mut c = CommandCoordinator::new();
    c.enqueue_all(G, Some(CHANNEL), vec![track("a"), track("b"), track("c")])
        .unwrap();
    let (removed, action) = c.remove(G, 1).unwrap();
    assert_eq!(removed.title, "b");
    assert!(action.is_none());
    let (current, pending) = c.queue_view(G).unwrap();
    assert_eq!(current.unwrap().title, "a");
    assert_eq!(pending.len(), 1);
    assert_eq!(pending[0].title, "c");
}

#[test]
fn remove_current_through_the_coordinator_advances() {
    let mut c = CommandCoordinator::new();
    c.enqueue_all(G, Some(CHANNEL), vec![track("a"), track("b")])
        .unwrap();
    let (removed, action) = c.remove(G, 0).unwrap();
    assert_eq!(removed.title, "a");
    assert_eq!(action, Some(play("b")));
    assert_eq!(c.now_playing(G).unwrap().title, "b");
}
