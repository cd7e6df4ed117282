//! Player state shown on screen, and how each protocol event changes it.
//!
//! Times are readings of a monotonic clock: nanoseconds since the instant
//! (`clock_origin`) the state was created at. Every operation that depends on
//! the current time comes in two forms: one that takes the reading as an
//! argument and is specified exactly, and one that reads the clock and then
//! does the same.

use crate::clock::{instant_now, nanos_since};
use std::time::Instant;
use crate::event::{
    AppEvent, AudioFormat, ControllerState, MetadataState, PlaybackState, RepeatMode,
    SyncQuality, TrackProgress,
};
use vstd::prelude::*;

verus! {

/// How long, in nanoseconds, a connection may go without data before it is
/// considered stale (10 seconds).
pub const STALE_AFTER_NS: u64 = 10_000_000_000;

/// Nanoseconds in a millisecond.
pub const NANOS_PER_MS: u64 = 1_000_000;

/// Playback speed (times 1000) of normal-speed playback.
pub const NORMAL_SPEED: i32 = 1000;

/// Player state, owned by the screen.
pub struct AppState {
    // Track metadata
    pub title: Option<String>,
    pub artist: Option<String>,
    pub album: Option<String>,
    // Progress
    pub track_progress_ms: i64,
    pub track_duration_ms: i64,
    pub playback_speed: i32,
    /// Clock reading at which `track_progress_ms` was last anchored.
    pub progress_updated_at: u64,
    // Controller
    pub volume: u8,
    pub muted: bool,
    pub repeat: RepeatMode,
    pub shuffle: bool,
    // Group
    pub playback_state: PlaybackState,
    pub group_name: Option<String>,
    // Connection/sync
    pub connected: bool,
    pub device_name: Option<String>,
    /// Clock reading at which data last arrived from the server.
    pub last_data_at: Option<u64>,
    /// Round-trip time of the last clock exchange, in microseconds.
    pub sync_rtt_micros: Option<i64>,
    pub sync_quality: Option<SyncQuality>,
    pub audio_format: Option<AudioFormat>,
    pub error: Option<String>,
    pub should_quit: bool,
    /// The instant clock readings count from.
    pub clock_origin: Instant,
}

/// Nanoseconds from reading `start` to reading `now`; zero if `now` is the
/// earlier one.
pub open spec fn elapsed_since(start: u64, now: u64) -> int {
    if now >= start {
        now - start
    } else {
        0
    }
}

/// Integer division rounding toward zero, as Rust's `/` does (`b > 0`).
pub open spec fn div_toward_zero(a: int, b: int) -> int {
    if a >= 0 {
        a / b
    } else {
        -((-a) / b)
    }
}

/// `x` saturated into the range of `i64`.
pub open spec fn saturate_i64(x: int) -> int {
    if x < i64::MIN {
        i64::MIN as int
    } else if x > i64::MAX {
        i64::MAX as int
    } else {
        x
    }
}

/// Track position at clock reading `now`: the anchored position plus the whole
/// milliseconds elapsed since the anchor, scaled by the playback speed; never
/// past the end of a track of known length while playing. A paused track
/// stays where it is.
pub open spec fn interpolated_progress(s: AppState, now: u64) -> int {
    if s.playback_speed == 0 {
        s.track_progress_ms as int
    } else {
        let p = s.track_progress_ms + div_toward_zero(
            (elapsed_since(s.progress_updated_at, now) / NANOS_PER_MS as int) * s.playback_speed,
            1000,
        );
        if s.track_duration_ms > 0 && p > s.track_duration_ms {
            s.track_duration_ms as int
        } else {
            p
        }
    }
}

/// What `current_progress_ms_at` returns: the interpolated position, saturated
/// into `i64`.
pub open spec fn progress_at(s: AppState, now: u64) -> i64 {
    saturate_i64(interpolated_progress(s, now)) as i64
}

/// The parts of the progress ratio: `None` for a track of unknown length,
/// else the position clamped into `0..=duration`, and the duration.
pub open spec fn progress_ratio_parts_spec(s: AppState, now: u64) -> Option<(i64, i64)> {
    if s.track_duration_ms <= 0 {
        None
    } else {
        let p = progress_at(s, now);
        let clamped = if p < 0 {
            0
        } else if p > s.track_duration_ms {
            s.track_duration_ms
        } else {
            p
        };
        Some((clamped, s.track_duration_ms))
    }
}

/// Whether the connection looks lost at clock reading `now`.
pub open spec fn stale_at(s: AppState, now: u64) -> bool {
    s.connected && match s.last_data_at {
        Some(t) => elapsed_since(t, now) > STALE_AFTER_NS,
        None => false,
    }
}

/// The state a fresh player starts in, counting time from `origin`, with its
/// progress anchored at reading `now`.
pub open spec fn initial_state(origin: Instant, now: u64) -> AppState {
    AppState {
        title: None,
        artist: None,
        album: None,
        track_progress_ms: 0,
        track_duration_ms: 0,
        playback_speed: 0,
        progress_updated_at: now,
        volume: 100,
        muted: false,
        repeat: RepeatMode::Off,
        shuffle: false,
        playback_state: PlaybackState::Stopped,
        group_name: None,
        connected: false,
        device_name: None,
        last_data_at: None,
        sync_rtt_micros: None,
        sync_quality: None,
        audio_format: None,
        error: None,
        should_quit: false,
        clock_origin: origin,
    }
}

/// `new` when present, else `old`.
pub open spec fn keep_or_replace<T>(old: Option<T>, new: Option<T>) -> Option<T> {
    if new is Some {
        new
    } else {
        old
    }
}

/// `new`'s value when present, else `old`.
pub open spec fn value_or<T>(old: T, new: Option<T>) -> T {
    match new {
        Some(v) => v,
        None => old,
    }
}

/// The state after metadata `m` arrives at clock reading `now`.
pub open spec fn after_metadata(s: AppState, m: MetadataState, now: u64) -> AppState {
    let with_text = AppState {
        last_data_at: Some(now),
        title: keep_or_replace(s.title, m.title),
        artist: keep_or_replace(s.artist, m.artist),
        album: keep_or_replace(s.album, m.album),
        repeat: value_or(s.repeat, m.repeat),
        shuffle: value_or(s.shuffle, m.shuffle),
        ..s
    };
    match m.progress {
        Some(p) => AppState {
            track_progress_ms: p.track_progress,
            track_duration_ms: p.track_duration,
            playback_speed: p.playback_speed,
            progress_updated_at: now,
            ..with_text
        },
        None => with_text,
    }
}

/// The state after an optimistic local update at clock reading `now`. When
/// the playing flag changes the speed, the position is first re-anchored at
/// its interpolated value so that the change does not make it jump.
pub open spec fn after_local_update(
    s: AppState,
    volume: u8,
    muted: bool,
    playing: bool,
    repeat: RepeatMode,
    shuffle: bool,
    now: u64,
) -> AppState {
    let new_speed: i32 = if playing {
        NORMAL_SPEED
    } else {
        0
    };
    let base = AppState { volume, muted, repeat, shuffle, ..s };
    if new_speed != s.playback_speed {
        AppState {
            track_progress_ms: progress_at(s, now),
            progress_updated_at: now,
            playback_speed: new_speed,
            ..base
        }
    } else {
        base
    }
}

/// The state after event `e` at clock reading `now`.
pub open spec fn after_event(s: AppState, e: AppEvent, now: u64) -> AppState {
    match e {
        AppEvent::Connected { device_name } => AppState {
            connected: true,
            device_name,
            last_data_at: Some(now),
            error: None,
            ..s
        },
        AppEvent::Disconnected(reason) => AppState {
            connected: false,
            last_data_at: None,
            error: Some(reason),
            ..s
        },
        AppEvent::Metadata(m) => after_metadata(s, m, now),
        AppEvent::Controller(c) => AppState { volume: c.volume, muted: c.muted, ..s },
        AppEvent::LocalStateUpdate { volume, muted, playing, repeat, shuffle } => after_local_update(
            s,
            volume,
            muted,
            playing,
            repeat,
            shuffle,
            now,
        ),
        AppEvent::GroupUpdate { playback_state, group_name } => AppState {
            playback_state: value_or(s.playback_state, playback_state),
            group_name: keep_or_replace(s.group_name, group_name),
            ..s
        },
        AppEvent::StreamStarted(format) => AppState { audio_format: Some(format), ..s },
        AppEvent::StreamEnded => AppState { playback_speed: 0, progress_updated_at: now, ..s },
        AppEvent::ClockSync { rtt_micros, quality } => AppState {
            last_data_at: Some(now),
            sync_rtt_micros: Some(rtt_micros),
            sync_quality: Some(quality),
            ..s
        },
        AppEvent::Error(msg) => AppState { error: Some(msg), ..s },
    }
}

impl AppState {
    /// A fresh player state: nothing known yet, volume 100, unmuted, stopped,
    /// disconnected, counting time from the current instant, with progress
    /// anchored at that instant.
    pub fn new() -> (s: Self)
        ensures
            s == initial_state(s.clock_origin, 0),
    {
        AppState {
            title: None,
            artist: None,
            album: None,
            track_progress_ms: 0,
            track_duration_ms: 0,
            playback_speed: 0,
            progress_updated_at: 0,
            volume: 100,
            muted: false,
            repeat: RepeatMode::Off,
            shuffle: false,
            playback_state: PlaybackState::Stopped,
            group_name: None,
            connected: false,
            device_name: None,
            last_data_at: None,
            sync_rtt_micros: None,
            sync_quality: None,
            audio_format: None,
            error: None,
            should_quit: false,
            clock_origin: instant_now(),
        }
    }

    /// Interpolated track position, in milliseconds, at clock reading `now`.
    pub fn current_progress_ms_at(&self, now: u64) -> (p: i64)
        ensures
            p == progress_at(*self, now),
    {
        let speed = self.playback_speed;
        if speed == 0 {
            return self.track_progress_ms;
        }
        let elapsed_ns: u64 = if now >= self.progress_updated_at {
            now - self.progress_updated_at
        } else {
            0
        };
        let elapsed: u64 = elapsed_ns / NANOS_PER_MS;
        let magnitude: u64 = if speed >= 0 {
            speed as u64
        } else {
            (-(speed as i64)) as u64
        };
        assert((elapsed as int) * (magnitude as int) <= (u64::MAX as int) * 0x1_0000_0000)
            by (nonlinear_arith)
            requires
                elapsed <= u64::MAX,
                magnitude <= 0x1_0000_0000,
        ;
        let product: u128 = (elapsed as u128) * (magnitude as u128);
        let scaled: u128 = product / 1000;
        assert(scaled <= product);
        let delta: i128 = if speed >= 0 {
            scaled as i128
        } else {
            -(scaled as i128)
        };
        proof {
            let e = elapsed_since(self.progress_updated_at, now) / NANOS_PER_MS as int;
            assert(e == elapsed as int);
            if speed >= 0 {
                assert(e * speed == (elapsed as int) * (magnitude as int));
                assert(e * speed >= 0) by (nonlinear_arith)
                    requires
                        e >= 0,
                        speed >= 0,
                ;
            } else {
                assert(e * speed == -((elapsed as int) * (magnitude as int))) by (nonlinear_arith)
                    requires
                        magnitude == -speed,
                        e == elapsed,
                ;
                assert(product as int == (elapsed as int) * (magnitude as int));
            }
            assert(delta == div_toward_zero(e * speed, 1000));
        }
        let progress: i128 = self.track_progress_ms as i128 + delta;
        let duration = self.track_duration_ms;
        let capped: i128 = if duration > 0 && progress > duration as i128 {
            duration as i128
        } else {
            progress
        };
        if capped < i64::MIN as i128 {
            i64::MIN
        } else if capped > i64::MAX as i128 {
            i64::MAX
        } else {
            capped as i64
        }
    }

    /// Interpolated track position, in milliseconds, at the current clock reading.
    pub fn current_progress_ms(&self) -> (p: i64)
        ensures
            exists|now: u64| p == progress_at(*self, now),
            self.playback_speed == 0 ==> p == self.track_progress_ms,
            self.playback_speed != 0 && self.track_duration_ms > 0 ==> p <= self.track_duration_ms,
    {
        let now = nanos_since(&self.clock_origin);
        self.current_progress_ms_at(now)
    }

    /// The parts of the progress ratio shown by the gauge at clock reading
    /// `now`: `None` when the track length is unknown (the ratio is 0),
    /// otherwise `(position, duration)` with `0 <= position <= duration`
    /// (the ratio is `position / duration`).
    pub fn progress_ratio_parts_at(&self, now: u64) -> (r: Option<(i64, i64)>)
        ensures
            r == progress_ratio_parts_spec(*self, now),
    {
        let duration = self.track_duration_ms;
        if duration <= 0 {
            return None;
        }
        let p = self.current_progress_ms_at(now);
        let clamped = if p < 0 {
            0
        } else if p > duration {
            duration
        } else {
            p
        };
        Some((clamped, duration))
    }

    /// The parts of the progress ratio at the current clock reading.
    pub fn progress_ratio_parts(&self) -> (r: Option<(i64, i64)>)
        ensures
            exists|now: u64| r == progress_ratio_parts_spec(*self, now),
            self.track_duration_ms <= 0 <==> r is None,
            r matches Some((n, d)) ==> 0 <= n <= d && d == self.track_duration_ms,
    {
        let now = nanos_since(&self.clock_origin);
        self.progress_ratio_parts_at(now)
    }

    /// Whether audio is currently playing (playback speed > 0).
    pub fn is_playing(&self) -> (b: bool)
        ensures
            b == (self.playback_speed > 0),
    {
        self.playback_speed > 0
    }

    /// Whether the connection looks lost at clock reading `now`: connected,
    /// but no data for more than 10 seconds.
    pub fn is_stale_at(&self, now: u64) -> (b: bool)
        ensures
            b == stale_at(*self, now),
    {
        if !self.connected {
            return false;
        }
        match self.last_data_at {
            Some(t) => {
                let elapsed: u64 = if now >= t {
                    now - t
                } else {
                    0
                };
                elapsed > STALE_AFTER_NS
            },
            None => false,
        }
    }

    /// Whether the connection looks lost at the current clock reading.
    pub fn is_stale(&self) -> (b: bool)
        ensures
            exists|now: u64| b == stale_at(*self, now),
            !self.connected ==> !b,
            self.last_data_at is None ==> !b,
    {
        let now = nanos_since(&self.clock_origin);
        self.is_stale_at(now)
    }

    /// Applies a protocol event received at clock reading `now`.
    pub fn handle_event_at(&mut self, event: AppEvent, now: u64)
        ensures
            *final(self) == after_event(*old(self), event, now),
    {
        match event {
            AppEvent::Connected { device_name } => {
                self.connected = true;
                self.device_name = device_name;
                self.last_data_at = Some(now);
                self.error = None;
            },
            AppEvent::Disconnected(reason) => {
                self.connected = false;
                self.last_data_at = None;
                self.error = Some(reason);
            },
            AppEvent::Metadata(meta) => {
                self.last_data_at = Some(now);
                if meta.title.is_some() {
                    self.title = meta.title;
                }
                if meta.artist.is_some() {
                    self.artist = meta.artist;
                }
                if meta.album.is_some() {
                    self.album = meta.album;
                }
                if let Some(progress) = meta.progress {
                    self.track_progress_ms = progress.track_progress;
                    self.track_duration_ms = progress.track_duration;
                    self.playback_speed = progress.playback_speed;
                    self.progress_updated_at = now;
                }
                if let Some(repeat) = meta.repeat {
                    self.repeat = repeat;
                }
                if let Some(shuffle) = meta.shuffle {
                    self.shuffle = shuffle;
                }
            },
            AppEvent::Controller(ctrl) => {
                self.volume = ctrl.volume;
                self.muted = ctrl.muted;
            },
            AppEvent::LocalStateUpdate { volume, muted, playing, repeat, shuffle } => {
                self.volume = volume;
                self.muted = muted;
                // Update playback speed without resetting progress interpolation
                let new_speed: i32 = if playing {
                    NORMAL_SPEED
                } else {
                    0
                };
                if new_speed != self.playback_speed {
                    // Anchor progress at the interpolated position before changing speed
                    self.track_progress_ms = self.current_progress_ms_at(now);
                    self.progress_updated_at = now;
                    self.playback_speed = new_speed;
                }
                self.repeat = repeat;
                self.shuffle = shuffle;
            },
            AppEvent::GroupUpdate { playback_state, group_name } => {
                if let Some(state) = playback_state {
                    self.playback_state = state;
                }
                if group_name.is_some() {
                    self.group_name = group_name;
                }
            },
            AppEvent::StreamStarted(format) => {
                self.audio_format = Some(format);
            },
            AppEvent::StreamEnded => {
                self.playback_speed = 0;
                self.progress_updated_at = now;
            },
            AppEvent::ClockSync { rtt_micros, quality } => {
                self.last_data_at = Some(now);
                self.sync_rtt_micros = Some(rtt_micros);
                self.sync_quality = Some(quality);
            },
            AppEvent::Error(msg) => {
                self.error = Some(msg);
            },
        }
    }

    /// Applies a protocol event at the current clock reading.
    pub fn handle_event(&mut self, event: AppEvent)
        ensures
            exists|now: u64| *final(self) == after_event(*old(self), event, now),
    {
        let now = nanos_since(&self.clock_origin);
        self.handle_event_at(event, now);
    }
}


/// Connecting marks the player connected, records when data last arrived,
/// and clears any earlier error.
pub proof fn law_connect_clears_error(s: AppState, device_name: Option<String>, now: u64)
    ensures
        ({
            let t = after_event(s, AppEvent::Connected { device_name }, now);
            &&& t.connected
            &&& t.error is None
            &&& t.device_name == device_name
            &&& t.last_data_at == Some(now)
        }),
{
}

/// A disconnect records its reason as the error, and a disconnected player
/// is never considered stale.
pub proof fn law_disconnect_records_reason(s: AppState, reason: String, now: u64, later: u64)
    ensures
        ({
            let t = after_event(s, AppEvent::Disconnected(reason), now);
            &&& !t.connected
            &&& t.error == Some(reason)
            &&& t.last_data_at is None
            &&& !stale_at(t, later)
        }),
{
}

/// Fields that a metadata update leaves out keep what the player knew.
pub proof fn law_absent_metadata_kept(s: AppState, m: MetadataState, now: u64)
    ensures
        ({
            let t = after_event(s, AppEvent::Metadata(m), now);
            &&& m.title is None ==> t.title == s.title
            &&& m.artist is None ==> t.artist == s.artist
            &&& m.album is None ==> t.album == s.album
            &&& m.repeat is None ==> t.repeat == s.repeat
            &&& m.shuffle is None ==> t.shuffle == s.shuffle
            &&& m.progress is None ==> {
                &&& t.track_progress_ms == s.track_progress_ms
                &&& t.track_duration_ms == s.track_duration_ms
                &&& t.playback_speed == s.playback_speed
                &&& t.progress_updated_at == s.progress_updated_at
            }
        }),
{
}

/// A metadata update that carries progress takes it over and anchors it now,
/// so right then the position is the one reported (unless a playing track is
/// reported past its known end, which shows as the end).
pub proof fn law_metadata_progress_taken(s: AppState, m: MetadataState, p: TrackProgress, now: u64)
    requires
        m.progress == Some(p),
        p.playback_speed == 0 || p.track_duration <= 0 || p.track_progress <= p.track_duration,
    ensures
        progress_at(after_event(s, AppEvent::Metadata(m), now), now) == p.track_progress,
{
    assert(elapsed_since(now, now) == 0);
    assert(0 * (p.playback_speed as int) == 0);
    assert(div_toward_zero(0, 1000) == 0);
}

/// A group update changes only what it carries.
pub proof fn law_group_update_partial(
    s: AppState,
    playback_state: Option<PlaybackState>,
    group_name: Option<String>,
    now: u64,
)
    ensures
        ({
            let t = after_event(s, AppEvent::GroupUpdate { playback_state, group_name }, now);
            &&& playback_state is None ==> t.playback_state == s.playback_state
            &&& group_name is None ==> t.group_name == s.group_name
            &&& playback_state matches Some(ps) ==> t.playback_state == ps
            &&& group_name is Some ==> t.group_name == group_name
        }),
{
}

/// While paused, the position does not move, whatever the clock says.
pub proof fn law_paused_position_fixed(s: AppState, now: u64)
    requires
        s.playback_speed == 0,
    ensures
        progress_at(s, now) == s.track_progress_ms,
{
}

/// While playing a track of known length, the position never passes its end.
pub proof fn law_position_capped_at_duration(s: AppState, now: u64)
    requires
        s.playback_speed != 0,
        s.track_duration_ms > 0,
    ensures
        progress_at(s, now) <= s.track_duration_ms,
{
}

/// While playing forward, the position never moves back as time passes.
pub proof fn law_position_advances(s: AppState, earlier: u64, later: u64)
    requires
        s.playback_speed > 0,
        earlier <= later,
    ensures
        progress_at(s, earlier) <= progress_at(s, later),
{
    let n1 = elapsed_since(s.progress_updated_at, earlier);
    let n2 = elapsed_since(s.progress_updated_at, later);
    assert(0 <= n1 <= n2);
    assert(n1 / 1_000_000 <= n2 / 1_000_000) by (nonlinear_arith)
        requires
            0 <= n1 <= n2,
    ;
    let e1 = n1 / NANOS_PER_MS as int;
    let e2 = n2 / NANOS_PER_MS as int;
    let v = s.playback_speed as int;
    assert(0 <= e1 <= e2);
    assert(0 <= e1 * v <= e2 * v) by (nonlinear_arith)
        requires
            0 <= e1 <= e2,
            v > 0,
    ;
    assert((e1 * v) / 1000 <= (e2 * v) / 1000) by (nonlinear_arith)
        requires
            0 <= e1 * v <= e2 * v,
    ;
}

/// The progress ratio lies between 0 and 1: the position part is clamped
/// into `0..=duration`, and a track of unknown length has ratio 0.
pub proof fn law_progress_ratio_in_unit_range(s: AppState, now: u64)
    ensures
        s.track_duration_ms <= 0 ==> progress_ratio_parts_spec(s, now) is None,
        progress_ratio_parts_spec(s, now) matches Some((n, d)) ==> 0 <= n <= d && d > 0,
{
}

/// An optimistic local update does not make the position jump: right after
/// it, the interpolated position is what it was just before. The one
/// exception is resuming a paused track whose stored position lies past its
/// known end; resuming then snaps the position back to the end.
pub proof fn law_local_update_keeps_position(
    s: AppState,
    volume: u8,
    muted: bool,
    playing: bool,
    repeat: RepeatMode,
    shuffle: bool,
    now: u64,
)
    requires
        !(s.playback_speed == 0 && playing && s.track_duration_ms > 0 && s.track_progress_ms
            > s.track_duration_ms),
    ensures
        progress_at(
            after_event(s, AppEvent::LocalStateUpdate { volume, muted, playing, repeat, shuffle }, now),
            now,
        ) == progress_at(s, now),
{
    let t = after_event(s, AppEvent::LocalStateUpdate { volume, muted, playing, repeat, shuffle }, now);
    if t.playback_speed != s.playback_speed && t.playback_speed != 0 {
        assert(elapsed_since(now, now) == 0);
        assert(0 * (t.playback_speed as int) == 0);
        assert(div_toward_zero(0, 1000) == 0);
    }
}

/// When the stream ends the player stops: it is no longer playing and its
/// position stays put from then on.
pub proof fn law_stream_end_stops_playback(s: AppState, now: u64, later: u64)
    ensures
        ({
            let t = after_event(s, AppEvent::StreamEnded, now);
            &&& t.playback_speed == 0
            &&& progress_at(t, later) == t.track_progress_ms
        }),
{
}

/// A connection is stale exactly when it is connected and no data has come
/// for more than ten seconds.
pub proof fn law_stale_needs_connection(s: AppState, now: u64)
    ensures
        stale_at(s, now) ==> s.connected && s.last_data_at is Some,
        s.connected && s.last_data_at == Some(now) ==> !stale_at(s, now),
{
}

/// No protocol event makes the screen quit.
pub proof fn law_events_never_quit(s: AppState, e: AppEvent, now: u64)
    ensures
        after_event(s, e, now).should_quit == s.should_quit,
{
}

/// A metadata update that carries a field takes its value: title, artist and
/// album are replaced, and repeat and shuffle set to what it reports.
pub proof fn law_metadata_fields_taken(s: AppState, m: MetadataState, now: u64)
    ensures
        ({
            let t = after_event(s, AppEvent::Metadata(m), now);
            &&& m.title is Some ==> t.title == m.title
            &&& m.artist is Some ==> t.artist == m.artist
            &&& m.album is Some ==> t.album == m.album
            &&& m.repeat matches Some(r) ==> t.repeat == r
            &&& m.shuffle matches Some(b) ==> t.shuffle == b
        }),
{
}

/// For a track of known length the progress bar shows the position the clock
/// shows: when the interpolated position (`current_progress_ms_at`) lies in
/// the track, the position part of the ratio is exactly that position, and
/// otherwise it is the nearer end of the track.
pub proof fn law_ratio_shows_current_position(s: AppState, now: u64)
    requires
        s.track_duration_ms > 0,
    ensures
        0 <= progress_at(s, now) <= s.track_duration_ms ==> progress_ratio_parts_spec(s, now) == Some(
            (progress_at(s, now), s.track_duration_ms),
        ),
        progress_at(s, now) < 0 ==> progress_ratio_parts_spec(s, now) == Some((0i64, s.track_duration_ms)),
        progress_at(s, now) > s.track_duration_ms ==> progress_ratio_parts_spec(s, now) == Some(
            (s.track_duration_ms, s.track_duration_ms),
        ),
{
}

/// Playing at normal speed, the bar moves one millisecond of track per
/// millisecond of clock: `k` whole milliseconds after the anchor, the
/// position part of the ratio is the anchored position plus `k`, as long as
/// that stays within the track.
pub proof fn law_ratio_advances_with_clock(s: AppState, now: u64)
    requires
        s.playback_speed == NORMAL_SPEED,
        s.progress_updated_at <= now,
        s.track_duration_ms > 0,
        0 <= s.track_progress_ms,
        s.track_progress_ms + (now - s.progress_updated_at) / (NANOS_PER_MS as int) <= s.track_duration_ms,
    ensures
        progress_ratio_parts_spec(s, now) == Some(
            (
                (s.track_progress_ms + (now - s.progress_updated_at) / (NANOS_PER_MS as int)) as i64,
                s.track_duration_ms,
            ),
        ),
{
    let n = elapsed_since(s.progress_updated_at, now);
    assert(n == now - s.progress_updated_at);
    let k = n / NANOS_PER_MS as int;
    assert(k >= 0);
    assert((k * 1000) / 1000 == k) by (nonlinear_arith)
        requires
            k >= 0,
    ;
    assert(k * (s.playback_speed as int) == k * 1000);
    assert(div_toward_zero(k * 1000, 1000) == k);
    assert(interpolated_progress(s, now) == s.track_progress_ms + k);
}

/// Events take the values they carry: controller state sets volume and mute,
/// a clock sync records its round trip and quality and counts as data, a
/// stream start records its format, an error is shown, and an optimistic
/// local update sets volume, mute, repeat and shuffle and plays at normal
/// speed or stops.
pub proof fn law_events_take_their_values(
    s: AppState,
    ctrl: ControllerState,
    rtt_micros: i64,
    quality: SyncQuality,
    format: AudioFormat,
    msg: String,
    volume: u8,
    muted: bool,
    playing: bool,
    repeat: RepeatMode,
    shuffle: bool,
    now: u64,
)
    ensures
        after_event(s, AppEvent::Controller(ctrl), now).volume == ctrl.volume,
        after_event(s, AppEvent::Controller(ctrl), now).muted == ctrl.muted,
        after_event(s, AppEvent::ClockSync { rtt_micros, quality }, now).sync_rtt_micros == Some(rtt_micros),
        after_event(s, AppEvent::ClockSync { rtt_micros, quality }, now).sync_quality == Some(quality),
        after_event(s, AppEvent::ClockSync { rtt_micros, quality }, now).last_data_at == Some(now),
        after_event(s, AppEvent::StreamStarted(format), now).audio_format == Some(format),
        after_event(s, AppEvent::Error(msg), now).error == Some(msg),
        ({
            let t = after_event(s, AppEvent::LocalStateUpdate { volume, muted, playing, repeat, shuffle }, now);
            &&& t.volume == volume
            &&& t.muted == muted
            &&& t.repeat == repeat
            &&& t.shuffle == shuffle
            &&& (t.playback_speed > 0 <==> playing)
            &&& playing ==> t.playback_speed == NORMAL_SPEED
        }),
{
}

} // verus!
