//! The values that flow between the protocol task and the screen: events
//! reported to the player state, and commands the user issues.

use vstd::prelude::*;

verus! {

/// Repeat mode of the playing group.
#[derive(Debug, Clone, Copy, PartialEq, Eq, Structural)]
pub enum RepeatMode {
    Off,
    One,
    All,
}

/// Playback state of the group this player belongs to.
#[derive(Debug, Clone, Copy, PartialEq, Eq, Structural)]
pub enum PlaybackState {
    Playing,
    Stopped,
}

/// How well the local clock tracks the server's.
#[derive(Debug, Clone, Copy, PartialEq, Eq, Structural)]
pub enum SyncQuality {
    Good,
    Degraded,
    Lost,
}

/// Audio codec of a stream.
#[derive(Debug, Clone, Copy, PartialEq, Eq, Structural)]
pub enum Codec {
    Pcm,
    Opus,
    Flac,
    Mp3,
}

/// Format of the audio stream being played.
#[derive(Debug, Clone)]
pub struct AudioFormat {
    pub codec: Codec,
    pub sample_rate: u32,
    pub channels: u8,
    pub bit_depth: u8,
    pub codec_header: Option<Vec<u8>>,
}

/// Position of the current track as the server reports it.
#[derive(Debug, Clone, Copy, PartialEq, Eq, Structural)]
pub struct TrackProgress {
    /// Position in milliseconds.
    pub track_progress: i64,
    /// Length in milliseconds (0 when unknown, e.g. a live stream).
    pub track_duration: i64,
    /// Playback speed times 1000 (1000 = normal, 0 = paused).
    pub playback_speed: i32,
}

/// Track metadata from the server; every field is optional and an absent
/// field leaves what the player already knows untouched.
#[derive(Debug, Clone)]
pub struct MetadataState {
    pub title: Option<String>,
    pub artist: Option<String>,
    pub album: Option<String>,
    pub progress: Option<TrackProgress>,
    pub repeat: Option<RepeatMode>,
    pub shuffle: Option<bool>,
}

/// Volume and mute state of the group, as the server reports it.
#[derive(Debug, Clone, Copy, PartialEq, Eq, Structural)]
pub struct ControllerState {
    pub volume: u8,
    pub muted: bool,
}

/// Events sent from the protocol task to the screen.
#[derive(Debug)]
pub enum AppEvent {
    Connected { device_name: Option<String> },
    Disconnected(String),
    Metadata(MetadataState),
    Controller(ControllerState),
    /// Optimistic local state update after a user command.
    LocalStateUpdate { volume: u8, muted: bool, playing: bool, repeat: RepeatMode, shuffle: bool },
    GroupUpdate { playback_state: Option<PlaybackState>, group_name: Option<String> },
    StreamStarted(AudioFormat),
    StreamEnded,
    /// Round-trip time of the last clock exchange, in microseconds.
    ClockSync { rtt_micros: i64, quality: SyncQuality },
    Error(String),
}

/// Commands sent from the screen to the protocol task.
#[derive(Debug, Clone, Copy, PartialEq, Eq, Structural)]
pub enum Command {
    PlayPause,
    Next,
    Previous,
    VolumeUp,
    VolumeDown,
    Mute,
    CycleRepeat,
    ToggleShuffle,
    Quit,
}

} // verus!
