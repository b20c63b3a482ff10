use disconic::CommandError;
use disconic::PlaybackState;
use disconic::TrackRecord;
use disconic::TransportAction;
use disconic::VoiceSession;

fn track(title: &str) -> TrackRecord {
    TrackRecord::new(title.to_string(), None, None, format!("stream://{title}"))
}

fn play(title: &str) -> TransportAction {
    TransportAction::Play { stream_locator: format!("stream://{title}") }
}

#[test]
fn new_session_is_connected_and_stopped() {
    let s = VoiceSession::new(10, 99);
    assert!(s.is_connected());
    assert_eq!(s.playback_state(), PlaybackState::Stopped);
    assert_eq!(s.queue_len(), 0);
}

#[test]
fn enqueue_on_empty_stopped_session_starts_playing() {
    let mut s = VoiceSession::new(1, 5);
    let (position, action) = s.enqueue_and_maybe_start(track("a"));
    assert_eq!(position, 1);
    assert_eq!(action, Some(play("a")));
    assert_eq!(s.playback_state(), PlaybackState::Playing);
}

#[test]
fn enqueue_while_playing_appends_silently() {
    let mut s = VoiceSession::new(1, 5);
    s.enqueue_and_maybe_start(track("a"));
    let (position, action) = s.enqueue_and_maybe_start(track("b"));
    assert_eq!(position, 2);
    assert_eq!(action, None);
    assert_eq!(s.playback_state(), PlaybackState::Playing);
}

#[test]
fn pause_from_stopped_is_invalid_state() {
    let mut s = VoiceSession::new(1, 5);
    assert_eq!(s.pause().unwrap_err(), CommandError::InvalidState);
    assert_eq!(s.playback_state(), PlaybackState::Stopped);
}

#[test]
fn resume_from_playing_is_invalid_state() {
    let mut s = VoiceSession::new(1, 5);
    s.enqueue_and_maybe_start(track("a"));
    assert_eq!(s.resume().unwrap_err(), CommandError::InvalidState);
    assert_eq!(s.playback_state(), PlaybackState::Playing);
}

#[test]
fn pause_then_resume_round_trip() {
    let mut s = VoiceSession::new(1, 5);
    s.enqueue_and_maybe_start(track("a"));
    assert_eq!(s.pause().unwrap(), TransportAction::Pause);
    assert_eq!(s.playback_state(), PlaybackState::Paused);
    assert_eq!(s.resume().unwrap(), TransportAction::Resume);
    assert_eq!(s.playback_state(), PlaybackState::Playing);
}

#[test]
fn skip_starts_the_new_current() {
    let mut s = VoiceSession::new(1, 5);
    s.enqueue_and_maybe_start(track("a"));
    s.enqueue_and_maybe_start(track("b"));
    let (now, action) = s.skip(1);
    assert_eq!(now.unwrap().title, "b");
    assert_eq!(action, Some(play("b")));
    assert_eq!(s.playback_state(), PlaybackState::Playing);
    assert_eq!(s.queue_len(), 1);
}

#[test]
fn skip_more_than_queued_stops_without_error() {
    let mut s = VoiceSession::new(1, 5);
    s.enqueue_and_maybe_start(track("a"));
    s.enqueue_and_maybe_start(track("b"));
    let (now, action) = s.skip(10);
    assert!(now.is_none());
    assert_eq!(action, Some(TransportAction::Stop));
    assert_eq!(s.playback_state(), PlaybackState::Stopped);
    assert_eq!(s.queue_len(), 0);
}

#[test]
fn skip_leaves_length_minus_count_entries() {
    let mut s = VoiceSession::new(1, 5);
    for name in ["a", "b", "c", "d", "e"] {
        s.enqueue_and_maybe_start(track(name));
    }
    s.skip(3);
    assert_eq!(s.queue_len(), 2);
    let (current, pending) = s.current_queue_view();
    assert_eq!(current.unwrap().title, "d");
    assert_eq!(pending.len(), 1);
    assert_eq!(pending[0].title, "e");
}

#[test]
fn skip_on_stopped_empty_session_is_a_noop() {
    let mut s = VoiceSession::new(1, 5);
    let (now, action) = s.skip(1);
    assert!(now.is_none());
    assert_eq!(action, None);
    assert_eq!(s.playback_state(), PlaybackState::Stopped);
}

#[test]
fn skip_while_paused_starts_the_next_track() {
    let mut s = VoiceSession::new(1, 5);
    s.enqueue_and_maybe_start(track("a"));
    s.enqueue_and_maybe_start(track("b"));
    s.pause().unwrap();
    let (now, action) = s.skip(1);
    assert_eq!(now.unwrap().title, "b");
    assert_eq!(action, Some(play("b")));
    assert_eq!(s.playback_state(), PlaybackState::Playing);
}

#[test]
fn remove_current_advances_like_skip() {
    let mut s = VoiceSession::new(1, 5);
    s.enqueue_and_maybe_start(track("a"));
    s.enqueue_and_maybe_start(track("b"));
    let (removed, action) = s.remove_at(0).unwrap();
    assert_eq!(removed.title, "a");
    assert_eq!(action, Some(play("b")));
    assert_eq!(s.playback_state(), PlaybackState::Playing);
}

#[test]
fn remove_last_current_stops_playback() {
    let mut s = VoiceSession::new(1, 5);
    s.enqueue_and_maybe_start(track("a"));
    let (removed, action) = s.remove_at(0).unwrap();
    assert_eq!(removed.title, "a");
    assert_eq!(action, Some(TransportAction::Stop));
    assert_eq!(s.playback_state(), PlaybackState::Stopped);
}

#[test]
fn remove_pending_entry_keeps_playback_untouched() {
    let mut s = VoiceSession::new(1, 5);
    s.enqueue_and_maybe_start(track("a"));
    s.enqueue_and_maybe_start(track("b"));
    s.enqueue_and_maybe_start(track("c"));
    let (removed, action) = s.remove_at(1).unwrap();
    assert_eq!(removed.title, "b");
    assert_eq!(action, None);
    assert_eq!(s.playback_state(), PlaybackState::Playing);
    let (current, pending) = s.current_queue_view();
    assert_eq!(current.unwrap().title, "a");
    assert_eq!(pending[0].title, "c");
}

#[test]
fn remove_out_of_range_is_not_found() {
    let mut s = VoiceSession::new(1, 5);
    s.enqueue_and_maybe_start(track("a"));
    assert_eq!(s.remove_at(1).unwrap_err(), CommandError::NotFound);
    assert_eq!(s.queue_len(), 1);
}

#[test]
fn track_finished_advances_like_a_single_skip() {
    let mut s = VoiceSession::new(1, 5);
    s.enqueue_and_maybe_start(track("a"));
    s.enqueue_and_maybe_start(track("b"));
    let (now, action) = s.on_track_finished();
    assert_eq!(now.unwrap().title, "b");
    assert_eq!(action, Some(play("b")));
    let (now, action) = s.on_track_finished();
    assert!(now.is_none());
    assert_eq!(action, Some(TransportAction::Stop));
    assert_eq!(s.playback_state(), PlaybackState::Stopped);
}

#[test]
fn stop_clears_queue_and_reports_once() {
    let mut s = VoiceSession::new(1, 5);
    s.enqueue_and_maybe_start(track("a"));
    s.enqueue_and_maybe_start(track("b"));
    assert_eq!(s.stop(), Some(TransportAction::Stop));
    assert_eq!(s.playback_state(), PlaybackState::Stopped);
    assert_eq!(s.queue_len(), 0);
    assert_eq!(s.stop(), None);
}

#[test]
fn join_is_idempotent_while_connected() {
    let mut s = VoiceSession::new(1, 5);
    assert_eq!(s.join(Some(77)).unwrap(), None);
    assert!(s.is_connected());
}

#[test]
fn join_after_leave_reconnects_with_hint() {
    let mut s = VoiceSession::new(1, 5);
    assert_eq!(s.leave(), Some(TransportAction::Disconnect));
    assert!(!s.is_connected());
    assert_eq!(s.leave(), None);
    assert_eq!(
        s.join(Some(8)).unwrap(),
        Some(TransportAction::Connect { channel: 8 })
    );
    assert!(s.is_connected());
}

#[test]
fn join_without_hint_fails_with_no_channel() {
    let mut s = VoiceSession::new(1, 5);
    s.leave();
    assert_eq!(s.join(None).unwrap_err(), CommandError::NoChannel);
    assert!(!s.is_connected());
}

#[test]
fn leave_tears_everything_down() {
    let mut s = VoiceSession::new(1, 5);
    s.enqueue_and_maybe_start(track("a"));
    s.pause().unwrap();
    assert_eq!(s.leave(), Some(TransportAction::Disconnect));
    assert_eq!(s.playback_state(), PlaybackState::Stopped);
    assert_eq!(s.queue_len(), 0);
    assert!(!s.is_connected());
}

#[test]
fn enqueue_all_starts_first_track_when_stopped() {
    let mut s = VoiceSession::new(1, 5);
    let action = s.enqueue_all(vec![track("a"), track("b"), track("c")]);
    assert_eq!(action, Some(play("a")));
    assert_eq!(s.playback_state(), PlaybackState::Playing);
    let (current, pending) = s.current_queue_view();
    assert_eq!(current.unwrap().title, "a");
    assert_eq!(pending.len(), 2);
    assert_eq!(pending[0].title, "b");
    assert_eq!(pending[1].title, "c");
}

#[test]
fn enqueue_all_while_playing_only_appends() {
    let mut s = VoiceSession::new(1, 5);
    s.enqueue_and_maybe_start(track("a"));
    let action = s.enqueue_all(vec![track("b"), track("c")]);
    assert_eq!(action, None);
    assert_eq!(s.queue_len(), 3);
}

#[test]
fn enqueue_all_with_no_tracks_changes_nothing() {
    let mut s = VoiceSession::new(1, 5);
    let action = s.enqueue_all(Vec::new());
    assert_eq!(action, None);
    assert_eq!(s.playback_state(), PlaybackState::Stopped);
    assert_eq!(s.queue_len(), 0);
}

#[test]
fn current_queue_view_on_empty_session() {
    let s = VoiceSession::new(1, 5);
    let (current, pending) = s.current_queue_view();
    assert!(current.is_none());
    assert!(pending.is_empty());
}
