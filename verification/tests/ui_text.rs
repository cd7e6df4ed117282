use sendspin_tui::app::AppState;
use sendspin_tui::event::{AudioFormat, Codec, RepeatMode, SyncQuality};
use sendspin_tui::ui::{
    audio_format_label, border_tone, connection_label, controls_line, format_time, play_marker, repeat_label,
    shuffle_label, status_line, subtitle_line, subtitle_text, title_line, track_title, volume_bar, volume_label,
    StatusPart, Styled, Tone,
};

fn pieces(line: &[Styled]) -> Vec<(String, Tone, bool, bool)> {
    line.iter().map(|s| (s.text.clone(), s.tone, s.bold, s.dim)).collect()
}

fn plain(text: &str, tone: Tone) -> (String, Tone, bool, bool) {
    (text.to_string(), tone, false, false)
}

#[test]
fn format_time_zero() {
    assert_eq!(format_time(0), "0:00");
}

#[test]
fn format_time_negative() {
    assert_eq!(format_time(-1000), "0:00");
}

#[test]
fn format_time_seconds() {
    assert_eq!(format_time(5_000), "0:05");
    assert_eq!(format_time(59_000), "0:59");
}

#[test]
fn format_time_minutes() {
    assert_eq!(format_time(60_000), "1:00");
    assert_eq!(format_time(90_000), "1:30");
    assert_eq!(format_time(183_000), "3:03");
}

#[test]
fn format_time_long() {
    assert_eq!(format_time(3_600_000), "60:00");
}

#[test]
fn volume_bar_full() {
    assert_eq!(volume_bar(100, false), "━━━━━━━━━━");
}

#[test]
fn volume_bar_empty() {
    assert_eq!(volume_bar(0, false), "──────────");
}

#[test]
fn volume_bar_half() {
    assert_eq!(volume_bar(50, false), "━━━━━─────");
}

#[test]
fn volume_bar_muted() {
    assert_eq!(volume_bar(100, true), "──────────");
    assert_eq!(volume_bar(50, true), "──────────");
}

// ---- further cases ----

#[test]
fn format_time_truncates_sub_second() {
    assert_eq!(format_time(999), "0:00");
    assert_eq!(format_time(1_999), "0:01");
    assert_eq!(format_time(i64::MAX), "153722867280912:55");
}

#[test]
fn volume_bar_rounds_down_and_edges() {
    assert_eq!(volume_bar(9, false), "──────────");
    assert_eq!(volume_bar(19, false), "━─────────");
    assert_eq!(volume_bar(109, false), "━━━━━━━━━━");
    assert_eq!(volume_bar(255, true), "──────────");
    assert_eq!(volume_bar(37, false).chars().count(), 10);
}

#[test]
fn volume_label_right_aligns() {
    assert_eq!(volume_label(7, false), "   7%");
    assert_eq!(volume_label(42, false), "  42%");
    assert_eq!(volume_label(100, false), " 100%");
    assert_eq!(volume_label(100, true), "   0%");
    assert_eq!(volume_label(255, false), " 255%");
}

#[test]
fn title_line_texts() {
    let mut state = AppState::new();
    assert_eq!(track_title(&state), "Not connected");
    state.connected = true;
    assert_eq!(track_title(&state), "Waiting for track...");
    state.title = Some("Song".into());
    assert_eq!(track_title(&state), "Song");
    assert_eq!(play_marker(true), "▶ ");
    assert_eq!(play_marker(false), "⏸ ");
}

#[test]
fn subtitle_combinations() {
    let mut state = AppState::new();
    assert_eq!(subtitle_text(&state), "");
    state.artist = Some("Artist".into());
    assert_eq!(subtitle_text(&state), "  Artist");
    state.album = Some("Album".into());
    assert_eq!(subtitle_text(&state), "  Artist — Album");
    state.artist = None;
    assert_eq!(subtitle_text(&state), "  Album");
    state.artist = Some(String::new());
    assert_eq!(subtitle_text(&state), "  Album");
}

#[test]
fn labels() {
    assert_eq!(repeat_label(RepeatMode::Off), "off");
    assert_eq!(repeat_label(RepeatMode::One), "one");
    assert_eq!(repeat_label(RepeatMode::All), "all");
    assert_eq!(shuffle_label(true), "on");
    assert_eq!(shuffle_label(false), "off");
    assert_eq!(connection_label(true), "connected");
    assert_eq!(connection_label(false), "disconnected");
}

#[test]
fn audio_format_text() {
    let fmt = AudioFormat {
        codec: Codec::Pcm,
        sample_rate: 48000,
        channels: 2,
        bit_depth: 24,
        codec_header: None,
    };
    assert_eq!(audio_format_label(&fmt), "48000Hz/24bit/2ch");
}

#[test]
fn formatted_time_reads_back_in_seconds() {
    let ms = 754_321;
    let text = format_time(ms);
    assert_eq!(text, "12:34");
    let (mins, secs) = text.split_once(':').unwrap();
    assert_eq!(secs.len(), 2);
    let secs: i64 = secs.parse().unwrap();
    assert!(secs < 60);
    assert_eq!(mins.parse::<i64>().unwrap() * 60 + secs, ms / 1000);
}

#[test]
fn title_line_shows_marker_and_bold_title() {
    let mut state = AppState::new();
    state.connected = true;
    state.title = Some("Song".to_string());
    state.playback_speed = 1000;
    assert_eq!(
        pieces(&title_line(&state)),
        vec![plain("\u{25b6} ", Tone::Cyan), ("Song".to_string(), Tone::White, true, false)]
    );
    state.title = None;
    state.playback_speed = 0;
    assert_eq!(
        pieces(&title_line(&state)),
        vec![plain("\u{23f8} ", Tone::Cyan), ("Waiting for track...".to_string(), Tone::White, true, false)]
    );
}

#[test]
fn subtitle_line_is_dark_grey() {
    let mut state = AppState::new();
    state.artist = Some("Artist".to_string());
    state.album = Some("Album".to_string());
    assert_eq!(pieces(&subtitle_line(&state)), vec![plain("  Artist \u{2014} Album", Tone::DarkGray)]);
}

#[test]
fn controls_line_pieces_and_colours() {
    let mut state = AppState::new();
    state.volume = 50;
    state.repeat = RepeatMode::All;
    assert_eq!(
        pieces(&controls_line(&state)),
        vec![
            plain("vol ", Tone::DarkGray),
            plain("\u{2501}\u{2501}\u{2501}\u{2501}\u{2501}\u{2500}\u{2500}\u{2500}\u{2500}\u{2500}", Tone::Cyan),
            plain("  50%", Tone::DarkGray),
            plain("    ", Tone::Default),
            plain("repeat ", Tone::DarkGray),
            plain("all", Tone::Cyan),
            plain("    ", Tone::Default),
            plain("shuffle ", Tone::DarkGray),
            plain("off", Tone::DarkGray),
        ]
    );
    state.muted = true;
    state.shuffle = true;
    state.repeat = RepeatMode::Off;
    let line = pieces(&controls_line(&state));
    assert_eq!(line[1], plain("\u{2500}\u{2500}\u{2500}\u{2500}\u{2500}\u{2500}\u{2500}\u{2500}\u{2500}\u{2500}", Tone::Red));
    assert_eq!(line[2], plain("   0%", Tone::DarkGray));
    assert_eq!(line[5], plain("off", Tone::DarkGray));
    assert_eq!(line[8], plain("on", Tone::Cyan));
}

fn status_pieces(state: &AppState) -> Vec<String> {
    status_line(state)
        .into_iter()
        .map(|p| match p {
            StatusPart::Text(s) => format!("{}|{:?}|{}", s.text, s.tone, s.dim),
            StatusPart::RoundTrip { rtt_micros, tone } => format!("rtt {rtt_micros}|{tone:?}"),
        })
        .collect()
}

#[test]
fn status_line_when_disconnected_has_only_state_and_hints() {
    let state = AppState::new();
    assert_eq!(
        status_pieces(&state),
        vec![
            "disconnected|Red|false".to_string(),
            " \u{2502} |DarkGray|false".to_string(),
            "q:quit spc:play n/p:skip \u{b1}:vol m:mute r:repeat s:shuffle|DarkGray|true".to_string(),
        ]
    );
}

#[test]
fn status_line_sections_come_in_order() {
    let mut state = AppState::new();
    state.connected = true;
    state.sync_rtt_micros = Some(12_500);
    state.sync_quality = Some(SyncQuality::Degraded);
    state.audio_format =
        Some(AudioFormat { codec: Codec::Pcm, sample_rate: 48_000, channels: 2, bit_depth: 16, codec_header: None });
    state.group_name = Some("Kitchen".to_string());
    state.error = Some("boom".to_string());
    let sep = " \u{2502} |DarkGray|false".to_string();
    assert_eq!(
        status_pieces(&state),
        vec![
            "connected|Green|false".to_string(),
            sep.clone(),
            "rtt 12500|Yellow".to_string(),
            sep.clone(),
            "48000Hz/16bit/2ch|DarkGray|false".to_string(),
            sep.clone(),
            "Kitchen|DarkGray|false".to_string(),
            sep.clone(),
            "boom|Red|false".to_string(),
            sep,
            "q:quit spc:play n/p:skip \u{b1}:vol m:mute r:repeat s:shuffle|DarkGray|true".to_string(),
        ]
    );
    // The round trip needs the quality too
    state.sync_quality = None;
    assert_eq!(status_pieces(&state).len(), 9);
}

#[test]
fn border_is_green_while_connected() {
    assert_eq!(border_tone(true), Tone::Green);
    assert_eq!(border_tone(false), Tone::DarkGray);
}
