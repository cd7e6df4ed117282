//! The text the screen shows: times, the volume bar, labels and the track
//! lines. Laying the text out and colouring it is left to the terminal side.

use crate::app::AppState;
use crate::event::{AudioFormat, RepeatMode, SyncQuality};
use crate::shared::{decimal_value, digit_value, lemma_decimal_text_reads_back};
use crate::text::{decimal_text, digit, digit_char, push_char, push_decimal};
use vstd::prelude::*;

verus! {

/// Number of cells in the volume bar.
pub const VOLUME_BAR_CELLS: u64 = 10;

/// A filled cell of the volume bar.
pub open spec fn bar_full() -> char {
    '\u{2501}'
}

/// An empty cell of the volume bar.
pub open spec fn bar_empty() -> char {
    '\u{2500}'
}

/// `n` copies of `c`.
pub open spec fn repeated(c: char, n: nat) -> Seq<char> {
    Seq::new(n, |_i: int| c)
}

/// The volume bar: ten cells, one filled for every full 10 of volume; all
/// empty when muted.
pub open spec fn volume_bar_text(volume: u8, muted: bool) -> Seq<char> {
    if muted {
        repeated(bar_empty(), 10)
    } else {
        let filled = (volume / 10) as nat;
        repeated(bar_full(), filled) + repeated(bar_empty(), (10 - filled) as nat)
    }
}

/// Appends `n` copies of `c`.
fn push_repeated(s: &mut String, c: char, n: u64)
    ensures
        final(s)@ == old(s)@ + repeated(c, n as nat),
{
    let mut i: u64 = 0;
    while i < n
        invariant
            i <= n,
            s@ == old(s)@ + repeated(c, i as nat),
        decreases n - i,
    {
        push_char(s, c);
        assert(old(s)@ + repeated(c, (i + 1) as nat) =~= (old(s)@ + repeated(c, i as nat)).push(c));
        i += 1;
    }
}

/// The volume bar for `volume` (0-100). A volume of 110 or more leaves no
/// room in the ten cells, so it is accepted only when muted.
pub fn volume_bar(volume: u8, muted: bool) -> (s: String)
    requires
        muted || volume < 110,
    ensures
        s@ == volume_bar_text(volume, muted),
{
    let mut s = String::new();
    if muted {
        push_repeated(&mut s, '\u{2500}', VOLUME_BAR_CELLS);
        return s;
    }
    let filled = (volume as u64) / 10;
    let empty = VOLUME_BAR_CELLS - filled;
    push_repeated(&mut s, '\u{2501}', filled);
    push_repeated(&mut s, '\u{2500}', empty);
    s
}

/// A time as "m:ss": whole minutes, a colon, and two digits of seconds;
/// "0:00" for zero or negative times.
pub open spec fn time_text(ms: i64) -> Seq<char> {
    if ms <= 0 {
        "0:00"@
    } else {
        let total_secs = ms / 1000;
        let secs = total_secs % 60;
        decimal_text((total_secs / 60) as nat) + seq![
            ':',
            digit_char(secs / 10),
            digit_char(secs % 10),
        ]
    }
}

/// Formats a track time given in milliseconds as "m:ss".
pub fn format_time(ms: i64) -> (s: String)
    ensures
        s@ == time_text(ms),
{
    if ms <= 0 {
        return String::from_str("0:00");
    }
    let total_secs = (ms / 1000) as u64;
    let mins = total_secs / 60;
    let secs = total_secs % 60;
    let mut s = String::new();
    push_decimal(&mut s, mins);
    push_char(&mut s, ':');
    push_char(&mut s, digit(secs / 10));
    push_char(&mut s, digit(secs % 10));
    assert(s@ =~= time_text(ms));
    s
}

/// `text` right-aligned in a field three characters wide.
pub open spec fn right_align3(text: Seq<char>) -> Seq<char> {
    if text.len() >= 3 {
        text
    } else {
        repeated(' ', (3 - text.len()) as nat) + text
    }
}

/// The volume figure next to the bar: " nnn%" with the volume right-aligned
/// in three characters, showing 0 when muted.
pub open spec fn volume_label_text(volume: u8, muted: bool) -> Seq<char> {
    let shown: nat = if muted {
        0
    } else {
        volume as nat
    };
    seq![' '] + right_align3(decimal_text(shown)) + seq!['%']
}

/// The volume figure next to the bar.
pub fn volume_label(volume: u8, muted: bool) -> (s: String)
    ensures
        s@ == volume_label_text(volume, muted),
{
    let shown: u64 = if muted {
        0
    } else {
        volume as u64
    };
    let mut digits = String::new();
    push_decimal(&mut digits, shown);
    let mut s = String::new();
    push_char(&mut s, ' ');
    let width = digits.as_str().unicode_len();
    if width < 3 {
        push_repeated(&mut s, ' ', (3 - width) as u64);
    }
    s.append(digits.as_str());
    push_char(&mut s, '%');
    assert(s@ =~= volume_label_text(volume, muted));
    s
}

/// The title line's text: the track title, or what the player is waiting for.
pub open spec fn track_title_text(s: AppState) -> Seq<char> {
    match s.title {
        Some(t) => t@,
        None => if s.connected {
            "Waiting for track..."@
        } else {
            "Not connected"@
        },
    }
}

/// The title line's text.
pub fn track_title(state: &AppState) -> (t: &str)
    ensures
        t@ == track_title_text(*state),
{
    match &state.title {
        Some(title) => title.as_str(),
        None => if state.connected {
            "Waiting for track..."
        } else {
            "Not connected"
        },
    }
}

/// The marker in front of the title: a play sign while playing, a pause
/// sign otherwise.
pub open spec fn play_marker_text(playing: bool) -> Seq<char> {
    if playing {
        "\u{25b6} "@
    } else {
        "\u{23f8} "@
    }
}

/// The marker in front of the title.
pub fn play_marker(playing: bool) -> (t: &'static str)
    ensures
        t@ == play_marker_text(playing),
{
    if playing {
        "\u{25b6} "
    } else {
        "\u{23f8} "
    }
}

/// Text of an optional string, empty when absent.
pub open spec fn text_or_empty(s: Option<String>) -> Seq<char> {
    match s {
        Some(t) => t@,
        None => Seq::empty(),
    }
}

/// The line under the title: artist and album, indented by two spaces and
/// separated by an em dash; whichever is known, or nothing.
pub open spec fn subtitle_text_spec(artist: Seq<char>, album: Seq<char>) -> Seq<char> {
    if artist.len() == 0 && album.len() == 0 {
        Seq::empty()
    } else if album.len() == 0 {
        "  "@ + artist
    } else if artist.len() == 0 {
        "  "@ + album
    } else {
        "  "@ + artist + " \u{2014} "@ + album
    }
}

/// The line under the title.
pub fn subtitle_text(state: &AppState) -> (t: String)
    ensures
        t@ == subtitle_text_spec(text_or_empty(state.artist), text_or_empty(state.album)),
{
    let artist: &str = match &state.artist {
        Some(a) => a.as_str(),
        None => "",
    };
    let album: &str = match &state.album {
        Some(a) => a.as_str(),
        None => "",
    };
    proof {
        reveal_strlit("");
    }
    let mut t = String::new();
    if artist.is_empty() && album.is_empty() {
        return t;
    }
    t.append("  ");
    if album.is_empty() {
        t.append(artist);
    } else if artist.is_empty() {
        t.append(album);
    } else {
        t.append(artist);
        t.append(" \u{2014} ");
        t.append(album);
    }
    t
}

/// Label of a repeat mode.
pub open spec fn repeat_label_text(r: RepeatMode) -> Seq<char> {
    match r {
        RepeatMode::Off => "off"@,
        RepeatMode::One => "one"@,
        RepeatMode::All => "all"@,
    }
}

/// Label of a repeat mode.
pub fn repeat_label(repeat: RepeatMode) -> (t: &'static str)
    ensures
        t@ == repeat_label_text(repeat),
{
    match repeat {
        RepeatMode::Off => "off",
        RepeatMode::One => "one",
        RepeatMode::All => "all",
    }
}

/// Label of the shuffle flag.
pub fn shuffle_label(shuffle: bool) -> (t: &'static str)
    ensures
        t@ == (if shuffle {
            "on"@
        } else {
            "off"@
        }),
{
    if shuffle {
        "on"
    } else {
        "off"
    }
}

/// Label of the connection state.
pub fn connection_label(connected: bool) -> (t: &'static str)
    ensures
        t@ == (if connected {
            "connected"@
        } else {
            "disconnected"@
        }),
{
    if connected {
        "connected"
    } else {
        "disconnected"
    }
}

/// The audio format in the status line: "<rate>Hz/<bits>bit/<channels>ch".
pub open spec fn audio_format_text(f: AudioFormat) -> Seq<char> {
    decimal_text(f.sample_rate as nat) + "Hz/"@ + decimal_text(f.bit_depth as nat) + "bit/"@
        + decimal_text(f.channels as nat) + "ch"@
}

/// The audio format in the status line.
pub fn audio_format_label(format: &AudioFormat) -> (t: String)
    ensures
        t@ == audio_format_text(*format),
{
    let mut t = String::new();
    push_decimal(&mut t, format.sample_rate as u64);
    t.append("Hz/");
    push_decimal(&mut t, format.bit_depth as u64);
    t.append("bit/");
    push_decimal(&mut t, format.channels as u64);
    t.append("ch");
    t
}


/// Colour of a piece of text on screen; `Default` leaves the terminal's own.
#[derive(Debug, Clone, Copy, PartialEq, Eq, Structural)]
pub enum Tone {
    Default,
    White,
    Cyan,
    Green,
    Yellow,
    Red,
    DarkGray,
}

/// A piece of text with its colour, boldness and dimness.
#[derive(Debug, Clone)]
pub struct Styled {
    pub text: String,
    pub tone: Tone,
    pub bold: bool,
    pub dim: bool,
}

/// How a piece of text looks: its characters, colour, boldness and dimness.
pub open spec fn look(s: Styled) -> (Seq<char>, Tone, bool, bool) {
    (s.text@, s.tone, s.bold, s.dim)
}

/// How a line of pieces looks.
pub open spec fn looks(line: Seq<Styled>) -> Seq<(Seq<char>, Tone, bool, bool)> {
    line.map_values(|s: Styled| look(s))
}

/// Plain-weight text in a colour.
pub open spec fn toned(text: Seq<char>, tone: Tone) -> (Seq<char>, Tone, bool, bool) {
    (text, tone, false, false)
}

fn styled(text: &str, tone: Tone) -> (s: Styled)
    ensures
        look(s) == toned(text@, tone),
{
    Styled { text: String::from_str(text), tone, bold: false, dim: false }
}

fn styled_string(text: String, tone: Tone) -> (s: Styled)
    ensures
        look(s) == toned(text@, tone),
{
    Styled { text, tone, bold: false, dim: false }
}

/// Colour of the frame around the screen: green while connected.
pub fn border_tone(connected: bool) -> (t: Tone)
    ensures
        t == (if connected {
            Tone::Green
        } else {
            Tone::DarkGray
        }),
{
    if connected {
        Tone::Green
    } else {
        Tone::DarkGray
    }
}

/// The title line: the play marker in cyan, then the title in bold white.
pub fn title_line(state: &AppState) -> (line: Vec<Styled>)
    ensures
        looks(line@) == seq![
            toned(play_marker_text(state.playback_speed > 0), Tone::Cyan),
            (track_title_text(*state), Tone::White, true, false),
        ],
{
    let mut line: Vec<Styled> = Vec::new();
    line.push(styled(play_marker(state.is_playing()), Tone::Cyan));
    line.push(Styled { text: String::from_str(track_title(state)), tone: Tone::White, bold: true, dim: false });
    assert(looks(line@) =~= seq![
        toned(play_marker_text(state.playback_speed > 0), Tone::Cyan),
        (track_title_text(*state), Tone::White, true, false),
    ]);
    line
}

/// The line under the title, in dark grey.
pub fn subtitle_line(state: &AppState) -> (line: Vec<Styled>)
    ensures
        looks(line@) == seq![
            toned(subtitle_text_spec(text_or_empty(state.artist), text_or_empty(state.album)), Tone::DarkGray),
        ],
{
    let mut line: Vec<Styled> = Vec::new();
    line.push(styled_string(subtitle_text(state), Tone::DarkGray));
    assert(looks(line@) =~= seq![
        toned(subtitle_text_spec(text_or_empty(state.artist), text_or_empty(state.album)), Tone::DarkGray),
    ]);
    line
}

/// The controls line: the volume bar (red when muted, else cyan) and figure,
/// then the repeat mode (cyan unless off) and the shuffle flag (cyan when
/// on), with dark grey captions. A volume of 110 or more is accepted only
/// when muted (see `volume_bar`).
pub fn controls_line(state: &AppState) -> (line: Vec<Styled>)
    requires
        state.muted || state.volume < 110,
    ensures
        looks(line@) == seq![
            toned("vol "@, Tone::DarkGray),
            toned(volume_bar_text(state.volume, state.muted), if state.muted {
                Tone::Red
            } else {
                Tone::Cyan
            }),
            toned(volume_label_text(state.volume, state.muted), Tone::DarkGray),
            toned("    "@, Tone::Default),
            toned("repeat "@, Tone::DarkGray),
            toned(repeat_label_text(state.repeat), if state.repeat == RepeatMode::Off {
                Tone::DarkGray
            } else {
                Tone::Cyan
            }),
            toned("    "@, Tone::Default),
            toned("shuffle "@, Tone::DarkGray),
            toned(if state.shuffle {
                "on"@
            } else {
                "off"@
            }, if state.shuffle {
                Tone::Cyan
            } else {
                Tone::DarkGray
            }),
        ],
{
    let mut line: Vec<Styled> = Vec::new();
    line.push(styled("vol ", Tone::DarkGray));
    line.push(
        styled_string(
            volume_bar(state.volume, state.muted),
            if state.muted {
                Tone::Red
            } else {
                Tone::Cyan
            },
        ),
    );
    line.push(styled_string(volume_label(state.volume, state.muted), Tone::DarkGray));
    line.push(styled("    ", Tone::Default));
    line.push(styled("repeat ", Tone::DarkGray));
    line.push(
        styled(
            repeat_label(state.repeat),
            if state.repeat == RepeatMode::Off {
                Tone::DarkGray
            } else {
                Tone::Cyan
            },
        ),
    );
    line.push(styled("    ", Tone::Default));
    line.push(styled("shuffle ", Tone::DarkGray));
    line.push(
        styled(
            shuffle_label(state.shuffle),
            if state.shuffle {
                Tone::Cyan
            } else {
                Tone::DarkGray
            },
        ),
    );
    assert(looks(line@) =~= seq![
        toned("vol "@, Tone::DarkGray),
        toned(volume_bar_text(state.volume, state.muted), if state.muted {
            Tone::Red
        } else {
            Tone::Cyan
        }),
        toned(volume_label_text(state.volume, state.muted), Tone::DarkGray),
        toned("    "@, Tone::Default),
        toned("repeat "@, Tone::DarkGray),
        toned(repeat_label_text(state.repeat), if state.repeat == RepeatMode::Off {
            Tone::DarkGray
        } else {
            Tone::Cyan
        }),
        toned("    "@, Tone::Default),
        toned("shuffle "@, Tone::DarkGray),
        toned(if state.shuffle {
            "on"@
        } else {
            "off"@
        }, if state.shuffle {
            Tone::Cyan
        } else {
            Tone::DarkGray
        }),
    ]);
    line
}

/// A part of the status line: a piece of text, or the clock round trip,
/// which is shown in milliseconds rounded to whole ones, in the given colour.
#[derive(Debug, Clone)]
pub enum StatusPart {
    Text(Styled),
    RoundTrip { rtt_micros: i64, tone: Tone },
}

/// How a status part looks: text pieces by their look, the round trip by its
/// value and colour.
pub open spec fn part_look(p: StatusPart) -> ((Seq<char>, Tone, bool, bool), Option<i64>) {
    match p {
        StatusPart::Text(s) => (look(s), None),
        StatusPart::RoundTrip { rtt_micros, tone } => (toned(Seq::empty(), tone), Some(rtt_micros)),
    }
}

/// A text part of the status line.
pub open spec fn text_part(text: Seq<char>, tone: Tone) -> ((Seq<char>, Tone, bool, bool), Option<i64>) {
    (toned(text, tone), None)
}

/// The separator between status parts.
pub open spec fn separator_part() -> ((Seq<char>, Tone, bool, bool), Option<i64>) {
    text_part(" \u{2502} "@, Tone::DarkGray)
}

/// Key hints at the end of the status line.
pub open spec fn key_hints_text() -> Seq<char> {
    "q:quit spc:play n/p:skip \u{b1}:vol m:mute r:repeat s:shuffle"@
}

/// Colour of the round trip for a sync quality.
pub open spec fn quality_tone(q: SyncQuality) -> Tone {
    match q {
        SyncQuality::Good => Tone::Green,
        SyncQuality::Degraded => Tone::Yellow,
        SyncQuality::Lost => Tone::Red,
    }
}

/// The status line, part by part: the connection state (green or red); the
/// clock round trip when both it and the sync quality are known, coloured
/// by the quality; the audio format; the group name; the error (red); and
/// the key hints (dark grey, dimmed). Parts after the first are preceded by
/// a dark grey separator; the middle ones appear only when known.
pub open spec fn status_looks(s: AppState) -> Seq<((Seq<char>, Tone, bool, bool), Option<i64>)> {
    let connection = seq![
        text_part(if s.connected {
            "connected"@
        } else {
            "disconnected"@
        }, if s.connected {
            Tone::Green
        } else {
            Tone::Red
        }),
    ];
    let hints = seq![separator_part(), ((key_hints_text(), Tone::DarkGray, false, true), None)];
    connection + sync_section(s) + format_section(s) + group_section(s) + error_section(s) + hints
}

/// The round trip section of the status line.
pub open spec fn sync_section(s: AppState) -> Seq<((Seq<char>, Tone, bool, bool), Option<i64>)> {
    match (s.sync_rtt_micros, s.sync_quality) {
        (Some(rtt), Some(q)) => seq![separator_part(), (toned(Seq::empty(), quality_tone(q)), Some(rtt))],
        _ => Seq::empty(),
    }
}

/// The audio format section of the status line.
pub open spec fn format_section(s: AppState) -> Seq<((Seq<char>, Tone, bool, bool), Option<i64>)> {
    match s.audio_format {
        Some(f) => seq![separator_part(), text_part(audio_format_text(f), Tone::DarkGray)],
        None => Seq::empty(),
    }
}

/// The group name section of the status line.
pub open spec fn group_section(s: AppState) -> Seq<((Seq<char>, Tone, bool, bool), Option<i64>)> {
    match s.group_name {
        Some(n) => seq![separator_part(), text_part(n@, Tone::DarkGray)],
        None => Seq::empty(),
    }
}

/// The error section of the status line.
pub open spec fn error_section(s: AppState) -> Seq<((Seq<char>, Tone, bool, bool), Option<i64>)> {
    match s.error {
        Some(e) => seq![separator_part(), text_part(e@, Tone::Red)],
        None => Seq::empty(),
    }
}

/// The looks of a list of status parts.
pub open spec fn part_looks(parts: Seq<StatusPart>) -> Seq<((Seq<char>, Tone, bool, bool), Option<i64>)> {
    parts.map_values(|p: StatusPart| part_look(p))
}

/// Appends a separator and then `part`.
fn push_section(parts: &mut Vec<StatusPart>, part: StatusPart)
    ensures
        part_looks(final(parts)@) == part_looks(old(parts)@) + seq![separator_part(), part_look(part)],
{
    let ghost before = parts@;
    let sep = StatusPart::Text(styled(" \u{2502} ", Tone::DarkGray));
    parts.push(sep);
    parts.push(part);
    assert(part_looks(parts@) =~= part_looks(before) + seq![separator_part(), part_look(part)]);
}

/// The status line (see `status_looks`).
pub fn status_line(state: &AppState) -> (parts: Vec<StatusPart>)
    ensures
        part_looks(parts@) == status_looks(*state),
{
    let ghost s = *state;
    let mut parts: Vec<StatusPart> = Vec::new();
    parts.push(
        StatusPart::Text(
            styled(
                connection_label(state.connected),
                if state.connected {
                    Tone::Green
                } else {
                    Tone::Red
                },
            ),
        ),
    );
    let ghost connection = seq![
        text_part(if s.connected {
            "connected"@
        } else {
            "disconnected"@
        }, if s.connected {
            Tone::Green
        } else {
            Tone::Red
        }),
    ];
    assert(part_looks(parts@) =~= connection);
    let ghost p0 = part_looks(parts@);
    match (state.sync_rtt_micros, state.sync_quality) {
        (Some(rtt), Some(quality)) => {
            let tone = match quality {
                SyncQuality::Good => Tone::Green,
                SyncQuality::Degraded => Tone::Yellow,
                SyncQuality::Lost => Tone::Red,
            };
            push_section(&mut parts, StatusPart::RoundTrip { rtt_micros: rtt, tone });
        },
        _ => {
            assert(p0 + sync_section(s) =~= p0);
        },
    }
    assert(part_looks(parts@) == p0 + sync_section(s));
    let ghost p1 = part_looks(parts@);
    match &state.audio_format {
        Some(format) => {
            push_section(
                &mut parts,
                StatusPart::Text(styled_string(audio_format_label(format), Tone::DarkGray)),
            );
        },
        None => {
            assert(p1 + format_section(s) =~= p1);
        },
    }
    assert(part_looks(parts@) == p1 + format_section(s));
    let ghost p2 = part_looks(parts@);
    match &state.group_name {
        Some(name) => {
            push_section(&mut parts, StatusPart::Text(styled(name.as_str(), Tone::DarkGray)));
        },
        None => {
            assert(p2 + group_section(s) =~= p2);
        },
    }
    assert(part_looks(parts@) == p2 + group_section(s));
    let ghost p3 = part_looks(parts@);
    match &state.error {
        Some(err) => {
            push_section(&mut parts, StatusPart::Text(styled(err.as_str(), Tone::Red)));
        },
        None => {
            assert(p3 + error_section(s) =~= p3);
        },
    }
    assert(part_looks(parts@) == p3 + error_section(s));
    push_section(
        &mut parts,
        StatusPart::Text(
            Styled {
                text: String::from_str("q:quit spc:play n/p:skip \u{b1}:vol m:mute r:repeat s:shuffle"),
                tone: Tone::DarkGray,
                bold: false,
                dim: true,
            },
        ),
    );
    parts
}

/// The volume bar always has ten cells; the first `volume / 10` are full and
/// the rest empty, and a muted bar is all empty.
pub proof fn law_volume_bar_cells(volume: u8, muted: bool)
    requires
        muted || volume < 110,
    ensures
        volume_bar_text(volume, muted).len() == 10,
        forall|i: int|
            0 <= i < 10 ==> (#[trigger] volume_bar_text(volume, muted)[i] == if !muted && i < volume
                / 10 {
                bar_full()
            } else {
                bar_empty()
            }),
{
    let t = volume_bar_text(volume, muted);
    if !muted {
        let f = (volume / 10) as nat;
        assert forall|i: int| 0 <= i < 10 implies #[trigger] t[i] == if i < f {
            bar_full()
        } else {
            bar_empty()
        } by {
            if i < f {
                assert(t[i] == repeated(bar_full(), f)[i]);
            } else {
                assert(t[i] == repeated(bar_empty(), (10 - f) as nat)[i - f]);
            }
        }
    }
}

/// A formatted time reads back as the time in whole seconds: the digits
/// before the colon are the minutes, the two after it the seconds (below 60).
pub proof fn law_time_text_reads_back(ms: i64)
    requires
        ms > 0,
    ensures
        ({
            let t = time_text(ms);
            let k = t.len() as int;
            &&& k >= 4
            &&& t[k - 3] == ':'
            &&& decimal_value(t.subrange(k - 2, k)) < 60
            &&& decimal_value(t.subrange(0, k - 3)) * 60 + decimal_value(t.subrange(k - 2, k)) == ms
                / 1000
        }),
{
    let total = ms / 1000;
    let secs = total % 60;
    let mins = (total / 60) as nat;
    lemma_decimal_text_reads_back(mins);
    let t = time_text(ms);
    let k = t.len() as int;
    let m = decimal_text(mins);
    assert(t.subrange(0, k - 3) =~= m);
    let two = t.subrange(k - 2, k);
    assert(two =~= seq![digit_char(secs / 10), digit_char(secs % 10)]);
    assert(two.drop_last() =~= seq![digit_char(secs / 10)]);
    assert(two.drop_last().drop_last() =~= Seq::<char>::empty());
    assert(digit_value(digit_char(secs / 10)) == secs / 10);
    assert(digit_value(digit_char(secs % 10)) == secs % 10);
    assert(decimal_value(Seq::<char>::empty()) == 0);
    assert(two.drop_last().last() == digit_char(secs / 10));
    assert(decimal_value(two.drop_last()) == secs / 10);
    assert(decimal_value(two) == (secs / 10) * 10 + secs % 10);
}

} // verus!
