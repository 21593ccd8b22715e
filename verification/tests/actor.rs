use stardust_music::command::{AudioCommand, PlayerRequest, Rate, Speed};
use stardust_music::script::run_script;
use stardust_music::session::PlaybackSession;

#[test]
fn new_session_has_no_track() {
    let s = PlaybackSession::new();
    assert_eq!(s.active_source, None);
    assert!(!s.is_playing);
}

#[test]
fn play_pause_without_track_is_noop() {
    let mut s = PlaybackSession::new();
    let reqs = s.on_command(AudioCommand::PlayPause);
    assert!(reqs.is_empty());
    assert_eq!(s, PlaybackSession::new());
}

#[test]
fn stop_without_track_is_noop() {
    let mut s = PlaybackSession::new();
    let reqs = s.on_command(AudioCommand::Stop);
    assert!(reqs.is_empty());
    assert_eq!(s, PlaybackSession::new());
}

#[test]
fn update_rate_without_track_is_noop() {
    let mut s = PlaybackSession::new();
    let reqs = s.on_command(AudioCommand::UpdateRate(Rate(42)));
    assert!(reqs.is_empty());
    assert_eq!(s, PlaybackSession::new());
}

#[test]
fn play_starts_streamed_source() {
    let mut s = PlaybackSession::new();
    let reqs = s.on_command(AudioCommand::Play("a.mp3".to_string()));
    assert_eq!(
        reqs,
        vec![PlayerRequest::PlayFileStreamed("a.mp3".to_string())]
    );
    s.on_play_outcome(Some(1));
    assert_eq!(s.active_source, Some(1));
    assert!(s.is_playing);
}

#[test]
fn failed_start_leaves_session_stopped() {
    let mut s = PlaybackSession::new();
    let _ = s.on_command(AudioCommand::Play("a.mp3".to_string()));
    s.on_play_outcome(None);
    assert_eq!(s.active_source, None);
    assert!(!s.is_playing);
}

#[test]
fn scenario_play_toggle_twice_stop() {
    let mut s = PlaybackSession::new();

    let reqs = s.on_command(AudioCommand::Play("a.mp3".to_string()));
    assert_eq!(
        reqs,
        vec![PlayerRequest::PlayFileStreamed("a.mp3".to_string())]
    );
    s.on_play_outcome(Some(1));
    assert_eq!(s.active_source, Some(1));
    assert!(s.is_playing);

    let reqs = s.on_command(AudioCommand::PlayPause);
    assert_eq!(reqs, vec![PlayerRequest::SetSourceSpeed(1, Speed::Paused)]);
    assert_eq!(s.active_source, Some(1));
    assert!(!s.is_playing);

    let reqs = s.on_command(AudioCommand::PlayPause);
    assert_eq!(reqs, vec![PlayerRequest::SetSourceSpeed(1, Speed::Normal)]);
    assert_eq!(s.active_source, Some(1));
    assert!(s.is_playing);

    let reqs = s.on_command(AudioCommand::Stop);
    assert_eq!(reqs, vec![PlayerRequest::StopSource(1)]);
    assert_eq!(s.active_source, Some(1));
    assert!(!s.is_playing);
}

#[test]
fn scenario_two_plays_single_stop() {
    let script = vec![
        (AudioCommand::Play("a.mp3".to_string()), Some(1)),
        (AudioCommand::Play("b.mp3".to_string()), Some(2)),
    ];
    let (trace, session) = run_script(PlaybackSession::new(), script);
    assert_eq!(
        trace,
        vec![
            PlayerRequest::PlayFileStreamed("a.mp3".to_string()),
            PlayerRequest::StopSource(1),
            PlayerRequest::PlayFileStreamed("b.mp3".to_string()),
        ]
    );
    let stops = trace
        .iter()
        .filter(|r| matches!(r, PlayerRequest::StopSource(1)))
        .count();
    assert_eq!(stops, 1);
    assert_eq!(session.active_source, Some(2));
    assert!(session.is_playing);
}

#[test]
fn toggle_twice_restores_session() {
    let mut s = PlaybackSession::new();
    let _ = s.on_command(AudioCommand::Play("a.mp3".to_string()));
    s.on_play_outcome(Some(7));
    let before = s;
    let _ = s.on_command(AudioCommand::PlayPause);
    let _ = s.on_command(AudioCommand::PlayPause);
    assert_eq!(s, before);
}

#[test]
fn update_rate_keeps_play_state() {
    let mut s = PlaybackSession::new();
    let _ = s.on_command(AudioCommand::Play("a.mp3".to_string()));
    s.on_play_outcome(Some(3));
    let before = s;
    let reqs = s.on_command(AudioCommand::UpdateRate(Rate(42)));
    assert_eq!(
        reqs,
        vec![PlayerRequest::SetSourceSpeed(3, Speed::Custom(Rate(42)))]
    );
    assert_eq!(s, before);
}

#[test]
fn stop_keeps_handle_and_toggle_resumes_it() {
    // Stop leaves the handle in place (the source has merely ended), so a
    // later toggle still addresses that same handle.
    let mut s = PlaybackSession::new();
    let _ = s.on_command(AudioCommand::Play("a.mp3".to_string()));
    s.on_play_outcome(Some(5));
    let _ = s.on_command(AudioCommand::Stop);
    assert_eq!(s.active_source, Some(5));
    assert!(!s.is_playing);
    let reqs = s.on_command(AudioCommand::PlayPause);
    assert_eq!(reqs, vec![PlayerRequest::SetSourceSpeed(5, Speed::Normal)]);
    assert!(s.is_playing);
}

#[test]
fn commands_apply_in_send_order() {
    // The trace of a whole script is the per-command request lists laid out
    // in send order: running a prefix and then the rest from the session the
    // prefix left behind gives the same trace as running everything at once.
    let whole = vec![
        (AudioCommand::Play("a.mp3".to_string()), Some(1)),
        (AudioCommand::PlayPause, None),
        (AudioCommand::UpdateRate(Rate(9)), None),
        (AudioCommand::Stop, None),
        (AudioCommand::Play("b.mp3".to_string()), Some(2)),
    ];
    let first = vec![
        (AudioCommand::Play("a.mp3".to_string()), Some(1)),
        (AudioCommand::PlayPause, None),
    ];
    let rest = vec![
        (AudioCommand::UpdateRate(Rate(9)), None),
        (AudioCommand::Stop, None),
        (AudioCommand::Play("b.mp3".to_string()), Some(2)),
    ];
    let (trace_whole, session_whole) = run_script(PlaybackSession::new(), whole);
    let (mut trace, session_mid) = run_script(PlaybackSession::new(), first);
    let (trace_rest, session_end) = run_script(session_mid, rest);
    trace.extend(trace_rest);
    assert_eq!(trace, trace_whole);
    assert_eq!(session_end, session_whole);
}
