use tts_lib::playback::PlaybackState;
use tts_lib::playback::PollAction;
use tts_lib::playback::SessionStatus;
use tts_lib::playback::poll_playback;

#[test]
fn fresh_state_is_idle() {
    let s = PlaybackState::new();
    assert_eq!(s.status, SessionStatus::Idle);
    assert!(!s.stop_requested);
    assert!(!s.is_audio_playing());
    assert_eq!(s.get_current_playing_file(), None);
}

#[test]
fn stop_when_idle_is_a_successful_no_op() {
    let mut s = PlaybackState::new();
    let before = s.clone();
    assert_eq!(s.stop(), Ok(()));
    assert_eq!(s, before);
}

#[test]
fn starting_a_session_claims_it() {
    let mut s = PlaybackState::new();
    s.start_session("play_mode_audio.mp3".to_string());
    assert_eq!(s.status, SessionStatus::Playing { file: "play_mode_audio.mp3".to_string() });
    assert!(!s.stop_requested);
    assert!(s.is_audio_playing());
    assert_eq!(s.get_current_playing_file(), Some("play_mode_audio.mp3".to_string()));
}

#[test]
fn stop_signals_the_active_session() {
    let mut s = PlaybackState::new();
    s.start_session("a.mp3".to_string());
    assert_eq!(s.stop(), Ok(()));
    assert_eq!(s.status, SessionStatus::Idle);
    assert!(s.stop_requested);
}

#[test]
fn two_plays_leave_exactly_one_active_session() {
    let mut s = PlaybackState::new();
    s.start_session("a.mp3".to_string());
    s.start_session("b.mp3".to_string());
    assert_eq!(s.status, SessionStatus::Playing { file: "b.mp3".to_string() });
    assert!(!s.stop_requested);
    assert_eq!(s.get_current_playing_file(), Some("b.mp3".to_string()));
}

#[test]
fn natural_finish_returns_to_idle() {
    let mut s = PlaybackState::new();
    s.start_session("a.mp3".to_string());
    s.finish_session("a.mp3");
    assert_eq!(s.status, SessionStatus::Idle);
    assert!(!s.stop_requested);
}

#[test]
fn stale_finish_does_not_clobber_a_fresh_session() {
    let mut s = PlaybackState::new();
    s.start_session("a.mp3".to_string());
    s.start_session("b.mp3".to_string());
    s.finish_session("a.mp3");
    assert_eq!(s.status, SessionStatus::Playing { file: "b.mp3".to_string() });
}

#[test]
fn finish_consumes_the_stop_signal() {
    let mut s = PlaybackState::new();
    s.start_session("a.mp3".to_string());
    s.stop().unwrap();
    assert!(s.stop_requested);
    s.finish_session("a.mp3");
    assert!(!s.stop_requested);
    assert_eq!(s.status, SessionStatus::Idle);
}

#[test]
fn poll_decisions() {
    assert_eq!(poll_playback(false, true), PollAction::StopSink);
    assert_eq!(poll_playback(true, true), PollAction::StopSink);
    assert_eq!(poll_playback(false, false), PollAction::KeepWaiting);
    assert_eq!(poll_playback(true, false), PollAction::Finished);
}
