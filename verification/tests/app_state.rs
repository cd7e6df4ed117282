use std::time::{Duration, Instant};

use sendspin_tui::app::AppState;
use sendspin_tui::event::{
    AppEvent, AudioFormat, Codec, ControllerState, MetadataState, PlaybackState, RepeatMode,
    SyncQuality, TrackProgress,
};

/// A clock reading `x` milliseconds after the state's origin.
fn ms(x: u64) -> u64 {
    x * 1_000_000
}

/// The state's clock reading now.
fn reading(state: &AppState) -> u64 {
    state.clock_origin.elapsed().as_nanos() as u64
}

/// A fresh state whose origin lies a minute in the past, so that readings
/// before "now" exist.
fn state_with_past() -> AppState {
    let mut state = AppState::new();
    state.clock_origin = Instant::now() - Duration::from_secs(60);
    state
}

/// A fresh state with its progress anchored at `anchor` (a reading).
fn state_at(anchor: u64) -> AppState {
    let mut state = AppState::new();
    state.progress_updated_at = anchor;
    state
}

fn progress_ratio(state: &AppState) -> f64 {
    match state.progress_ratio_parts() {
        None => 0.0,
        Some((position, duration)) => position as f64 / duration as f64,
    }
}

fn metadata_with_title(title: &str) -> MetadataState {
    MetadataState {
        title: Some(title.to_string()),
        artist: None,
        album: None,
        progress: None,
        repeat: None,
        shuffle: None,
    }
}

fn metadata_with_progress(progress_ms: i64, duration_ms: i64, speed: i32) -> MetadataState {
    MetadataState {
        title: None,
        artist: None,
        album: None,
        progress: Some(TrackProgress {
            track_progress: progress_ms,
            track_duration: duration_ms,
            playback_speed: speed,
        }),
        repeat: None,
        shuffle: None,
    }
}

#[test]
fn new_state_defaults() {
    let state = AppState::new();
    assert!(!state.connected);
    assert!(!state.is_playing());
    assert_eq!(state.volume, 100);
    assert!(!state.muted);
    assert!(matches!(state.repeat, RepeatMode::Off));
    assert!(!state.shuffle);
    assert!(state.title.is_none());
    assert_eq!(progress_ratio(&state), 0.0);
}

#[test]
fn connected_clears_error() {
    let mut state = AppState::new();
    state.error = Some("old error".into());
    state.handle_event(AppEvent::Connected { device_name: None });
    assert!(state.connected);
    assert!(state.error.is_none());
}

#[test]
fn disconnected_sets_error() {
    let mut state = AppState::new();
    state.connected = true;
    state.handle_event(AppEvent::Disconnected("connection lost".into()));
    assert!(!state.connected);
    assert_eq!(state.error.as_deref(), Some("connection lost"));
}

#[test]
fn metadata_updates_title() {
    let mut state = AppState::new();
    state.handle_event(AppEvent::Metadata(metadata_with_title("Test Song")));
    assert_eq!(state.title.as_deref(), Some("Test Song"));
}

#[test]
fn metadata_none_fields_dont_overwrite() {
    let mut state = AppState::new();
    state.title = Some("Original".into());
    state.artist = Some("Artist".into());

    // Send metadata with only title set — artist should remain
    state.handle_event(AppEvent::Metadata(metadata_with_title("New Title")));
    assert_eq!(state.title.as_deref(), Some("New Title"));
    assert_eq!(state.artist.as_deref(), Some("Artist"));
}

#[test]
fn metadata_updates_progress() {
    let mut state = AppState::new();
    state.handle_event(AppEvent::Metadata(metadata_with_progress(30_000, 180_000, 1000)));
    assert_eq!(state.track_progress_ms, 30_000);
    assert_eq!(state.track_duration_ms, 180_000);
    assert_eq!(state.playback_speed, 1000);
    assert!(state.is_playing());
}

#[test]
fn controller_updates_volume_and_mute() {
    let mut state = AppState::new();
    state.handle_event(AppEvent::Controller(ControllerState { volume: 75, muted: true }));
    assert_eq!(state.volume, 75);
    assert!(state.muted);
}

#[test]
fn progress_ratio_zero_when_no_duration() {
    let mut state = AppState::new();
    state.track_progress_ms = 5000;
    state.track_duration_ms = 0;
    assert_eq!(progress_ratio(&state), 0.0);
}

#[test]
fn progress_ratio_clamped_to_one() {
    let mut state = AppState::new();
    state.track_progress_ms = 200_000;
    state.track_duration_ms = 180_000;
    state.playback_speed = 0; // paused so interpolation doesn't add more
    assert_eq!(progress_ratio(&state), 1.0);
}

#[test]
fn progress_paused_does_not_advance() {
    let mut state = state_with_past();
    state.track_progress_ms = 60_000;
    state.track_duration_ms = 180_000;
    state.playback_speed = 0;
    state.progress_updated_at = reading(&state) - ms(10_000);
    // Even though 10 seconds elapsed, paused should not advance
    assert_eq!(state.current_progress_ms(), 60_000);
}

#[test]
fn progress_capped_at_duration() {
    let mut state = state_with_past();
    state.track_progress_ms = 179_000;
    state.track_duration_ms = 180_000;
    state.playback_speed = 1000;
    // Set updated_at 5 seconds ago — would overshoot 180s
    state.progress_updated_at = reading(&state) - ms(5_000);
    assert_eq!(state.current_progress_ms(), 180_000);
}

#[test]
fn local_state_update_volume_preserves_progress() {
    let mut state = AppState::new();
    state.track_progress_ms = 60_000;
    state.track_duration_ms = 180_000;
    state.playback_speed = 1000;
    state.progress_updated_at = reading(&state);

    // Volume change should not reset progress
    state.handle_event(AppEvent::LocalStateUpdate {
        volume: 80,
        muted: false,
        playing: true, // same as current
        repeat: RepeatMode::Off,
        shuffle: false,
    });
    assert_eq!(state.volume, 80);
    // Progress should be >= 60_000 (not reset to 0)
    assert!(state.current_progress_ms() >= 60_000);
}

#[test]
fn local_state_update_pause_anchors_progress() {
    let mut state = AppState::new();
    state.track_progress_ms = 60_000;
    state.track_duration_ms = 180_000;
    state.playback_speed = 1000;
    state.progress_updated_at = reading(&state);

    state.handle_event(AppEvent::LocalStateUpdate {
        volume: 100,
        muted: false,
        playing: false, // pause
        repeat: RepeatMode::Off,
        shuffle: false,
    });
    assert_eq!(state.playback_speed, 0);
    // Progress should be anchored at ~60s, not reset to 0
    assert!(state.current_progress_ms() >= 60_000);
}

#[test]
fn stream_ended_stops_playback() {
    let mut state = AppState::new();
    state.playback_speed = 1000;
    state.handle_event(AppEvent::StreamEnded);
    assert_eq!(state.playback_speed, 0);
    assert!(!state.is_playing());
}

#[test]
fn stream_started_sets_format() {
    let mut state = AppState::new();
    let fmt = AudioFormat {
        codec: Codec::Pcm,
        sample_rate: 48000,
        channels: 2,
        bit_depth: 24,
        codec_header: None,
    };
    state.handle_event(AppEvent::StreamStarted(fmt));
    let f = state.audio_format.as_ref().unwrap();
    assert_eq!(f.sample_rate, 48000);
    assert_eq!(f.bit_depth, 24);
}

#[test]
fn clock_sync_updates() {
    let mut state = AppState::new();
    // 12.5 ms round trip
    state.handle_event(AppEvent::ClockSync { rtt_micros: 12_500, quality: SyncQuality::Good });
    assert_eq!(state.sync_rtt_micros, Some(12_500));
    assert!(matches!(state.sync_quality, Some(SyncQuality::Good)));
}

#[test]
fn group_update_partial() {
    let mut state = AppState::new();
    state.group_name = Some("Room 1".into());
    // Update only playback_state, group_name is None — should not overwrite
    state.handle_event(AppEvent::GroupUpdate {
        playback_state: Some(PlaybackState::Playing),
        group_name: None,
    });
    assert!(matches!(state.playback_state, PlaybackState::Playing));
    assert_eq!(state.group_name.as_deref(), Some("Room 1"));
}

// ---- exact values at a given clock reading ----

#[test]
fn new_state_is_anchored_at_the_clock() {
    let before = Instant::now();
    let state = AppState::new();
    let after = Instant::now();
    assert!(before <= state.clock_origin && state.clock_origin <= after);
    assert_eq!(state.progress_updated_at, 0);
    assert!(reading(&state) >= state.progress_updated_at);
    assert!(matches!(state.playback_state, PlaybackState::Stopped));
    assert!(!state.should_quit);
}

#[test]
fn progress_interpolates_at_given_time() {
    let mut state = state_at(ms(1_000));
    state.track_progress_ms = 10_000;
    state.track_duration_ms = 0;
    state.playback_speed = 1000;
    assert_eq!(state.current_progress_ms_at(ms(4_000)), 13_000);
    // half speed
    state.playback_speed = 500;
    assert_eq!(state.current_progress_ms_at(ms(4_000)), 11_500);
    // the clock going backwards counts as no time passing
    assert_eq!(state.current_progress_ms_at(ms(500)), 10_000);
}

#[test]
fn elapsed_time_counts_whole_milliseconds() {
    let mut state = state_at(0);
    state.track_progress_ms = 0;
    state.playback_speed = 1000;
    assert_eq!(state.current_progress_ms_at(ms(2) - 1), 1);
    assert_eq!(state.current_progress_ms_at(ms(2)), 2);
}

#[test]
fn negative_speed_rounds_toward_zero() {
    let mut state = state_at(ms(0));
    state.track_progress_ms = 10_000;
    state.playback_speed = -1;
    // -1 * 1999 / 1000 rounds toward zero to -1
    assert_eq!(state.current_progress_ms_at(ms(1_999)), 9_999);
}

#[test]
fn huge_progress_saturates() {
    let mut state = state_at(ms(0));
    state.track_progress_ms = i64::MAX - 10;
    state.playback_speed = i32::MAX;
    assert_eq!(state.current_progress_ms_at(u64::MAX), i64::MAX);
    state.track_progress_ms = i64::MIN + 10;
    state.playback_speed = i32::MIN;
    assert_eq!(state.current_progress_ms_at(u64::MAX), i64::MIN);
}

#[test]
fn progress_ratio_parts_at_clamps() {
    let mut state = state_at(ms(0));
    state.track_progress_ms = -500;
    state.track_duration_ms = 1_000;
    assert_eq!(state.progress_ratio_parts_at(ms(0)), Some((0, 1_000)));
    state.track_progress_ms = 250;
    assert_eq!(state.progress_ratio_parts_at(ms(0)), Some((250, 1_000)));
    state.track_duration_ms = -3;
    assert_eq!(state.progress_ratio_parts_at(ms(0)), None);
}

#[test]
fn stale_after_ten_seconds() {
    let mut state = state_at(ms(0));
    state.handle_event_at(AppEvent::Connected { device_name: Some("dev".into()) }, ms(1_000));
    assert_eq!(state.device_name.as_deref(), Some("dev"));
    assert_eq!(state.last_data_at, Some(ms(1_000)));
    assert!(!state.is_stale_at(ms(11_000)));
    assert!(state.is_stale_at(ms(11_000) + 1));
    state.handle_event_at(AppEvent::Disconnected("gone".into()), ms(12_000));
    assert!(!state.is_stale_at(ms(100_000)));
    assert!(!state.is_stale());
}

#[test]
fn clock_sync_refreshes_data_time() {
    let mut state = state_at(ms(0));
    state.handle_event_at(AppEvent::Connected { device_name: None }, ms(0));
    state.handle_event_at(AppEvent::ClockSync { rtt_micros: 3, quality: SyncQuality::Lost }, ms(9_000));
    assert_eq!(state.last_data_at, Some(ms(9_000)));
    assert!(!state.is_stale_at(ms(15_000)));
}

#[test]
fn metadata_progress_anchors_now() {
    let mut state = state_at(ms(0));
    state.handle_event_at(AppEvent::Metadata(metadata_with_progress(1_000, 5_000, 1000)), ms(7_000));
    assert_eq!(state.progress_updated_at, ms(7_000));
    assert_eq!(state.last_data_at, Some(ms(7_000)));
    assert_eq!(state.current_progress_ms_at(ms(7_000)), 1_000);
    assert_eq!(state.current_progress_ms_at(ms(9_000)), 3_000);
    assert_eq!(state.current_progress_ms_at(ms(100_000)), 5_000);
}

#[test]
fn metadata_repeat_and_shuffle() {
    let mut state = state_at(ms(0));
    let meta = MetadataState {
        title: None,
        artist: Some("A".into()),
        album: Some("B".into()),
        progress: None,
        repeat: Some(RepeatMode::One),
        shuffle: Some(true),
    };
    state.handle_event_at(AppEvent::Metadata(meta), ms(5));
    assert!(matches!(state.repeat, RepeatMode::One));
    assert!(state.shuffle);
    assert_eq!(state.artist.as_deref(), Some("A"));
    assert_eq!(state.album.as_deref(), Some("B"));
    assert!(state.title.is_none());
}

#[test]
fn local_update_resume_keeps_position() {
    let mut state = state_at(ms(0));
    state.track_progress_ms = 40_000;
    state.track_duration_ms = 100_000;
    state.playback_speed = 1000;
    // pause at 5s later: anchored at 45s
    state.handle_event_at(
        AppEvent::LocalStateUpdate { volume: 10, muted: true, playing: false, repeat: RepeatMode::All, shuffle: true }, ms(5_000),
    );
    assert_eq!(state.track_progress_ms, 45_000);
    assert_eq!(state.progress_updated_at, ms(5_000));
    assert_eq!(state.current_progress_ms_at(ms(60_000)), 45_000);
    assert_eq!(state.volume, 10);
    assert!(state.muted);
    assert!(matches!(state.repeat, RepeatMode::All));
    assert!(state.shuffle);
    // resume at 60s: still 45s, then advances
    state.handle_event_at(
        AppEvent::LocalStateUpdate { volume: 10, muted: true, playing: true, repeat: RepeatMode::All, shuffle: true }, ms(60_000),
    );
    assert_eq!(state.current_progress_ms_at(ms(60_000)), 45_000);
    assert_eq!(state.current_progress_ms_at(ms(61_000)), 46_000);
}

#[test]
fn resuming_past_end_snaps_to_end() {
    // the one input on which a local update moves the position
    let mut state = state_at(ms(0));
    state.track_progress_ms = 200_000;
    state.track_duration_ms = 180_000;
    state.playback_speed = 0;
    assert_eq!(state.current_progress_ms_at(ms(0)), 200_000);
    state.handle_event_at(
        AppEvent::LocalStateUpdate { volume: 100, muted: false, playing: true, repeat: RepeatMode::Off, shuffle: false }, ms(0),
    );
    assert_eq!(state.current_progress_ms_at(ms(0)), 180_000);
}

#[test]
fn stream_end_freezes_position() {
    let mut state = state_at(ms(0));
    state.track_progress_ms = 1_000;
    state.playback_speed = 1000;
    state.handle_event_at(AppEvent::StreamEnded, ms(3_000));
    assert_eq!(state.progress_updated_at, ms(3_000));
    assert_eq!(state.current_progress_ms_at(ms(3_000)), 1_000);
    assert_eq!(state.current_progress_ms_at(ms(30_000)), 1_000);
}

#[test]
fn error_event_sets_error_only() {
    let mut state = state_at(ms(0));
    state.connected = true;
    state.handle_event_at(AppEvent::Error("oops".into()), ms(1));
    assert_eq!(state.error.as_deref(), Some("oops"));
    assert!(state.connected);
    assert!(state.last_data_at.is_none());
    assert!(!state.should_quit);
}

#[test]
fn group_update_replaces_name() {
    let mut state = state_at(ms(0));
    state.handle_event_at(
        AppEvent::GroupUpdate { playback_state: None, group_name: Some("Kitchen".into()) }, ms(1),
    );
    assert_eq!(state.group_name.as_deref(), Some("Kitchen"));
    assert!(matches!(state.playback_state, PlaybackState::Stopped));
}

#[test]
fn playing_position_never_moves_back() {
    let mut state = state_at(ms(100));
    state.track_progress_ms = 0;
    state.track_duration_ms = 10_000;
    state.playback_speed = 1500;
    let mut last = state.current_progress_ms_at(ms(0));
    for t in (0..20_000u64).step_by(777) {
        let p = state.current_progress_ms_at(ms(t));
        assert!(p >= last);
        assert!(p <= 10_000);
        last = p;
    }
}

#[test]
fn events_never_quit_the_screen() {
    let mut state = state_at(ms(0));
    state.handle_event_at(AppEvent::Disconnected("x".into()), ms(1));
    state.handle_event_at(AppEvent::StreamEnded, ms(2));
    state.handle_event_at(AppEvent::Error("y".into()), ms(3));
    assert!(!state.should_quit);
    state.should_quit = true;
    state.handle_event_at(AppEvent::Connected { device_name: None }, ms(4));
    assert!(state.should_quit);
}
