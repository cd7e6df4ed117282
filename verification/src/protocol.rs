//! Decisions the protocol task makes: what a user command does to the
//! controller state and which command it sends, how server state updates
//! that controller state, which streams can be played, and how audio chunks
//! and unknown messages are treated. The task itself (network, audio device,
//! timers) runs outside the library and acts on these decisions.

use crate::event::{
    AppEvent, AudioFormat, Codec, Command, ControllerState, MetadataState, PlaybackState, RepeatMode,
    TrackProgress,
};
use crate::shared::{player_action_of, player_command_action, PlayerAction, PlayerCommand};
use vstd::prelude::*;
use vstd::string::StringSliceAdditionalSpecFns;

verus! {

/// Controller command sent to the server.
#[derive(Debug, Clone, Copy, PartialEq, Eq, Structural)]
pub enum ControllerCommandKind {
    Play,
    Pause,
    Next,
    Previous,
    Volume,
    Mute,
    RepeatOff,
    RepeatOne,
    RepeatAll,
    Shuffle,
    Unshuffle,
}

/// Name of a controller command on the wire.
pub open spec fn wire_name_spec(k: ControllerCommandKind) -> Seq<char> {
    match k {
        ControllerCommandKind::Play => "play"@,
        ControllerCommandKind::Pause => "pause"@,
        ControllerCommandKind::Next => "next"@,
        ControllerCommandKind::Previous => "previous"@,
        ControllerCommandKind::Volume => "volume"@,
        ControllerCommandKind::Mute => "mute"@,
        ControllerCommandKind::RepeatOff => "repeat_off"@,
        ControllerCommandKind::RepeatOne => "repeat_one"@,
        ControllerCommandKind::RepeatAll => "repeat_all"@,
        ControllerCommandKind::Shuffle => "shuffle"@,
        ControllerCommandKind::Unshuffle => "unshuffle"@,
    }
}

impl ControllerCommandKind {
    /// Name of this command on the wire.
    pub fn wire_name(&self) -> (s: &'static str)
        ensures
            s@ == wire_name_spec(*self),
    {
        match self {
            ControllerCommandKind::Play => "play",
            ControllerCommandKind::Pause => "pause",
            ControllerCommandKind::Next => "next",
            ControllerCommandKind::Previous => "previous",
            ControllerCommandKind::Volume => "volume",
            ControllerCommandKind::Mute => "mute",
            ControllerCommandKind::RepeatOff => "repeat_off",
            ControllerCommandKind::RepeatOne => "repeat_one",
            ControllerCommandKind::RepeatAll => "repeat_all",
            ControllerCommandKind::Shuffle => "shuffle",
            ControllerCommandKind::Unshuffle => "unshuffle",
        }
    }
}

/// A controller command message: the command, and the volume or mute value
/// it carries.
#[derive(Debug, Clone, Copy, PartialEq, Eq, Structural)]
pub struct ControllerCommand {
    pub command: ControllerCommandKind,
    pub volume: Option<u8>,
    pub mute: Option<bool>,
}

/// What the protocol task believes the group's controller state to be; user
/// commands act on it optimistically.
#[derive(Debug, Clone, Copy, PartialEq, Eq, Structural)]
pub struct ControllerView {
    pub volume: u8,
    pub muted: bool,
    pub playing: bool,
    pub repeat: RepeatMode,
    pub shuffle: bool,
}

/// The repeat mode that follows `r` in the cycle off, all, one.
pub open spec fn next_repeat(r: RepeatMode) -> RepeatMode {
    match r {
        RepeatMode::Off => RepeatMode::All,
        RepeatMode::All => RepeatMode::One,
        RepeatMode::One => RepeatMode::Off,
    }
}

/// Volume after "volume up": 5 more, at most 100.
pub open spec fn volume_up(v: u8) -> u8 {
    if v + 5 <= 100 {
        (v + 5) as u8
    } else {
        100
    }
}

/// Volume after "volume down": 5 less, at least 0.
pub open spec fn volume_down(v: u8) -> u8 {
    if v >= 5 {
        (v - 5) as u8
    } else {
        0
    }
}

/// The controller state after user command `cmd`.
pub open spec fn controller_after(cmd: Command, c: ControllerView) -> ControllerView {
    match cmd {
        Command::PlayPause => ControllerView { playing: !c.playing, ..c },
        Command::VolumeUp => ControllerView { volume: volume_up(c.volume), ..c },
        Command::VolumeDown => ControllerView { volume: volume_down(c.volume), ..c },
        Command::Mute => ControllerView { muted: !c.muted, ..c },
        Command::CycleRepeat => ControllerView { repeat: next_repeat(c.repeat), ..c },
        Command::ToggleShuffle => ControllerView { shuffle: !c.shuffle, ..c },
        Command::Next | Command::Previous | Command::Quit => c,
    }
}

/// A command message with neither volume nor mute value.
pub open spec fn plain_command(k: ControllerCommandKind) -> ControllerCommand {
    ControllerCommand { command: k, volume: None, mute: None }
}

/// The message user command `cmd` sends, given the controller state `after`
/// it leaves behind; "quit" sends none.
pub open spec fn command_message(cmd: Command, after: ControllerView) -> Option<ControllerCommand> {
    match cmd {
        Command::PlayPause => Some(
            plain_command(
                if after.playing {
                    ControllerCommandKind::Play
                } else {
                    ControllerCommandKind::Pause
                },
            ),
        ),
        Command::Next => Some(plain_command(ControllerCommandKind::Next)),
        Command::Previous => Some(plain_command(ControllerCommandKind::Previous)),
        Command::VolumeUp | Command::VolumeDown => Some(
            ControllerCommand {
                command: ControllerCommandKind::Volume,
                volume: Some(after.volume),
                mute: None,
            },
        ),
        Command::Mute => Some(
            ControllerCommand {
                command: ControllerCommandKind::Mute,
                volume: None,
                mute: Some(after.muted),
            },
        ),
        Command::CycleRepeat => Some(
            plain_command(
                match after.repeat {
                    RepeatMode::Off => ControllerCommandKind::RepeatOff,
                    RepeatMode::One => ControllerCommandKind::RepeatOne,
                    RepeatMode::All => ControllerCommandKind::RepeatAll,
                },
            ),
        ),
        Command::ToggleShuffle => Some(
            plain_command(
                if after.shuffle {
                    ControllerCommandKind::Shuffle
                } else {
                    ControllerCommandKind::Unshuffle
                },
            ),
        ),
        Command::Quit => None,
    }
}

/// Applies a user command: changes the local controller state optimistically
/// and returns the command message to send to the server (none for "quit").
pub fn apply_command(
    cmd: Command,
    volume: &mut u8,
    muted: &mut bool,
    playing: &mut bool,
    repeat: &mut RepeatMode,
    shuffle: &mut bool,
) -> (msg: Option<ControllerCommand>)
    ensures
        ({
            let before = ControllerView {
                volume: *old(volume),
                muted: *old(muted),
                playing: *old(playing),
                repeat: *old(repeat),
                shuffle: *old(shuffle),
            };
            let after = ControllerView {
                volume: *final(volume),
                muted: *final(muted),
                playing: *final(playing),
                repeat: *final(repeat),
                shuffle: *final(shuffle),
            };
            &&& after == controller_after(cmd, before)
            &&& msg == command_message(cmd, after)
        }),
{
    let (command, vol, mute_val) = match cmd {
        Command::PlayPause => {
            if *playing {
                *playing = false;
                (ControllerCommandKind::Pause, None, None)
            } else {
                *playing = true;
                (ControllerCommandKind::Play, None, None)
            }
        },
        Command::Next => (ControllerCommandKind::Next, None, None),
        Command::Previous => (ControllerCommandKind::Previous, None, None),
        Command::VolumeUp => {
            *volume = volume.saturating_add(5).min(100);
            (ControllerCommandKind::Volume, Some(*volume), None)
        },
        Command::VolumeDown => {
            *volume = volume.saturating_sub(5);
            (ControllerCommandKind::Volume, Some(*volume), None)
        },
        Command::Mute => {
            *muted = !*muted;
            (ControllerCommandKind::Mute, None, Some(*muted))
        },
        Command::CycleRepeat => {
            let kind = match *repeat {
                RepeatMode::Off => {
                    *repeat = RepeatMode::All;
                    ControllerCommandKind::RepeatAll
                },
                RepeatMode::All => {
                    *repeat = RepeatMode::One;
                    ControllerCommandKind::RepeatOne
                },
                RepeatMode::One => {
                    *repeat = RepeatMode::Off;
                    ControllerCommandKind::RepeatOff
                },
            };
            (kind, None, None)
        },
        Command::ToggleShuffle => {
            *shuffle = !*shuffle;
            if *shuffle {
                (ControllerCommandKind::Shuffle, None, None)
            } else {
                (ControllerCommandKind::Unshuffle, None, None)
            }
        },
        Command::Quit => return None,
    };
    Some(ControllerCommand { command, volume: vol, mute: mute_val })
}

/// The controller state after the server reports metadata and/or controller
/// state: playing follows the reported speed, repeat and shuffle follow the
/// metadata, volume and mute follow the controller state; absent parts change
/// nothing.
pub open spec fn controller_observed(
    c: ControllerView,
    metadata: Option<MetadataState>,
    controller: Option<ControllerState>,
) -> ControllerView {
    let c1 = match metadata {
        Some(m) => ControllerView {
            playing: match m.progress {
                Some(p) => p.playback_speed > 0,
                None => c.playing,
            },
            repeat: match m.repeat {
                Some(r) => r,
                None => c.repeat,
            },
            shuffle: match m.shuffle {
                Some(s) => s,
                None => c.shuffle,
            },
            ..c
        },
        None => c,
    };
    match controller {
        Some(ctrl) => ControllerView { volume: ctrl.volume, muted: ctrl.muted, ..c1 },
        None => c1,
    }
}

impl ControllerView {
    /// The state the protocol task starts from: volume 100, unmuted, not
    /// playing, repeat off, shuffle off.
    pub fn new() -> (c: Self)
        ensures
            c == (ControllerView {
                volume: 100,
                muted: false,
                playing: false,
                repeat: RepeatMode::Off,
                shuffle: false,
            }),
    {
        ControllerView { volume: 100, muted: false, playing: false, repeat: RepeatMode::Off, shuffle: false }
    }

    /// Applies a user command to this state (see `apply_command`).
    pub fn apply(&mut self, cmd: Command) -> (msg: Option<ControllerCommand>)
        ensures
            *final(self) == controller_after(cmd, *old(self)),
            msg == command_message(cmd, *final(self)),
    {
        apply_command(
            cmd,
            &mut self.volume,
            &mut self.muted,
            &mut self.playing,
            &mut self.repeat,
            &mut self.shuffle,
        )
    }

    /// Takes in what a server state message reports.
    pub fn observe_server_state(
        &mut self,
        metadata: Option<&MetadataState>,
        controller: Option<&ControllerState>,
    )
        ensures
            *final(self) == controller_observed(
                *old(self),
                match metadata {
                    Some(m) => Some(*m),
                    None => None,
                },
                match controller {
                    Some(c) => Some(*c),
                    None => None,
                },
            ),
    {
        if let Some(metadata) = metadata {
            if let Some(progress) = &metadata.progress {
                self.playing = progress.playback_speed > 0;
            }
            if let Some(repeat) = metadata.repeat {
                self.repeat = repeat;
            }
            if let Some(shuffle) = metadata.shuffle {
                self.shuffle = shuffle;
            }
        }
        if let Some(controller) = controller {
            self.volume = controller.volume;
            self.muted = controller.muted;
        }
    }

    /// The optimistic update the screen is told about after a user command.
    pub fn local_state_event(&self) -> (e: AppEvent)
        ensures
            e == (AppEvent::LocalStateUpdate {
                volume: self.volume,
                muted: self.muted,
                playing: self.playing,
                repeat: self.repeat,
                shuffle: self.shuffle,
            }),
    {
        AppEvent::LocalStateUpdate {
            volume: self.volume,
            muted: self.muted,
            playing: self.playing,
            repeat: self.repeat,
            shuffle: self.shuffle,
        }
    }
}

/// Player part of a stream start announcement.
#[derive(Debug, Clone)]
pub struct StreamPlayerConfig {
    pub codec: String,
    pub sample_rate: u32,
    pub channels: u8,
    pub bit_depth: u8,
}

/// The only codec this player decodes.
pub open spec fn is_pcm(codec: Seq<char>) -> bool {
    codec == "pcm"@
}

/// Decides whether an announced stream can be played: a PCM stream gives its
/// audio format; any other codec gives the error message
/// "Unsupported codec: <codec>".
pub fn stream_format(config: &StreamPlayerConfig) -> (r: Result<AudioFormat, String>)
    ensures
        r is Ok <==> is_pcm(config.codec@),
        r matches Ok(f) ==> f == (AudioFormat {
            codec: Codec::Pcm,
            sample_rate: config.sample_rate,
            channels: config.channels,
            bit_depth: config.bit_depth,
            codec_header: None,
        }),
        r matches Err(msg) ==> msg@ == "Unsupported codec: "@ + config.codec@,
{
    let pcm = String::from_str("pcm");
    if config.codec != pcm {
        let mut msg = String::from_str("Unsupported codec: ");
        msg.append(config.codec.as_str());
        return Err(msg);
    }
    Ok(
        AudioFormat {
            codec: Codec::Pcm,
            sample_rate: config.sample_rate,
            channels: config.channels,
            bit_depth: config.bit_depth,
            codec_header: None,
        },
    )
}

/// Bytes in one audio frame: whole bytes per sample times channels.
pub open spec fn frame_size(bit_depth: u8, channels: u8) -> nat {
    ((bit_depth / 8) * channels) as nat
}

/// Whether an audio chunk of `len` bytes holds whole frames only; chunks
/// that do not are dropped. The frame size must not be zero.
pub fn chunk_is_whole_frames(len: usize, bit_depth: u8, channels: u8) -> (b: bool)
    requires
        frame_size(bit_depth, channels) != 0,
    ensures
        b == (len as nat % frame_size(bit_depth, channels) == 0),
{
    let bytes_per_sample = bit_depth as usize / 8;
    assert(bytes_per_sample * (channels as usize) <= 255 * 255) by (nonlinear_arith)
        requires
            bytes_per_sample <= 255,
            channels <= 255,
    ;
    let frame = bytes_per_sample * channels as usize;
    len % frame == 0
}

/// Longest prefix, in bytes, of an unknown message shown to the user.
pub const UNHANDLED_PREFIX_BYTES: usize = 120;

/// Bytes of the UTF-8 encoding of `text`, as `str::len` counts them.
pub open spec fn byte_len(text: Seq<char>) -> usize {
    vstd::utf8::encode_utf8(text).len() as usize
}

/// Whether `debug` can be cut after `UNHANDLED_PREFIX_BYTES` bytes (or needs
/// no cut).
pub open spec fn can_cut_for_notice(debug: Seq<char>) -> bool {
    byte_len(debug) <= UNHANDLED_PREFIX_BYTES || vstd::utf8::is_char_boundary(
        vstd::utf8::encode_utf8(debug),
        UNHANDLED_PREFIX_BYTES as int,
    )
}

/// Whether `notice` is the notice for a message whose debug text is `debug`:
/// "Unhandled: " and the text, cut after 120 bytes and marked "..." when
/// longer.
pub open spec fn is_unhandled_notice(debug: Seq<char>, notice: Seq<char>) -> bool {
    if byte_len(debug) <= UNHANDLED_PREFIX_BYTES {
        notice == "Unhandled: "@ + debug
    } else {
        exists|cut: Seq<char>|
            {
                &&& #[trigger] vstd::utf8::encode_utf8(cut) == vstd::utf8::encode_utf8(debug).subrange(
                    0,
                    UNHANDLED_PREFIX_BYTES as int,
                )
                &&& notice == "Unhandled: "@ + cut + "..."@
            }
    }
}

/// The notice shown for a message the player does not handle: "Unhandled: "
/// and its debug text, cut after 120 bytes and marked "..." when longer. The
/// cut must fall on a character boundary.
pub fn unhandled_notice(debug: &str) -> (r: String)
    requires
        can_cut_for_notice(debug@),
    ensures
        is_unhandled_notice(debug@, r@),
{
    let mut r = String::from_str("Unhandled: ");
    if debug.len() > UNHANDLED_PREFIX_BYTES {
        let (head, _tail) = debug.split_at(UNHANDLED_PREFIX_BYTES);
        r.append(head);
        r.append("...");
        assert(vstd::utf8::encode_utf8(head@) == debug.spec_bytes().subrange(
            0,
            UNHANDLED_PREFIX_BYTES as int,
        ));
        assert(r@ == "Unhandled: "@ + head@ + "..."@);
    } else {
        r.append(debug);
    }
    r
}


/// A message from the server, as the protocol task sees it.
#[derive(Debug)]
pub enum ServerMessage {
    /// A stream starts; the player part, if the player role is in it.
    StreamStart(Option<StreamPlayerConfig>),
    StreamEnd,
    StreamClear,
    ServerState { metadata: Option<MetadataState>, controller: Option<ControllerState> },
    /// A command to the player role, if any.
    ServerCommand(Option<PlayerCommand>),
    GroupUpdate { playback_state: Option<PlaybackState>, group_name: Option<String> },
    /// Any other message, by its debug text.
    Other(String),
}

/// What the protocol task does in answer to a server message.
#[derive(Debug)]
pub enum SessionAction {
    /// Tell the screen.
    Notify(AppEvent),
    /// Decode audio in this format from now on (little-endian PCM).
    UseFormat(AudioFormat),
    /// Drop the audio buffered in the player, if there is a player.
    ClearPlayer,
    /// Apply this to the player, if there is a player.
    Player(PlayerAction),
}

/// The audio format of a PCM stream announced with `config`.
pub open spec fn pcm_format_of(config: StreamPlayerConfig) -> AudioFormat {
    AudioFormat {
        codec: Codec::Pcm,
        sample_rate: config.sample_rate,
        channels: config.channels,
        bit_depth: config.bit_depth,
        codec_header: None,
    }
}

fn pcm_format(config: &StreamPlayerConfig) -> (f: AudioFormat)
    ensures
        f == pcm_format_of(*config),
{
    AudioFormat {
        codec: Codec::Pcm,
        sample_rate: config.sample_rate,
        channels: config.channels,
        bit_depth: config.bit_depth,
        codec_header: None,
    }
}

/// Passing metadata on to the screen, if there is any.
pub open spec fn metadata_notice(metadata: Option<MetadataState>) -> Seq<SessionAction> {
    match metadata {
        Some(m) => seq![SessionAction::Notify(AppEvent::Metadata(m))],
        None => Seq::empty(),
    }
}

/// Passing controller state on to the screen, if there is any.
pub open spec fn controller_notice(controller: Option<ControllerState>) -> Seq<SessionAction> {
    match controller {
        Some(c) => seq![SessionAction::Notify(AppEvent::Controller(c))],
        None => Seq::empty(),
    }
}

/// Whether a server message can be answered: the debug text of an
/// unknown message must be cuttable for its notice.
pub open spec fn answerable(msg: ServerMessage) -> bool {
    msg matches ServerMessage::Other(d) ==> can_cut_for_notice(d@)
}

/// How a server message changes the controller state (`before` to `after`)
/// and what the protocol task does in answer:
/// - a PCM stream start switches the decoder to its format and tells the
///   screen; any other codec tells the screen "Unsupported codec: <codec>";
/// - a stream end clears the player and tells the screen, a stream clear only
///   clears the player;
/// - server state is taken into the controller state, and its metadata and
///   controller parts are passed on to the screen, in that order;
/// - a player command is applied to the player;
/// - a group update is passed on to the screen;
/// - anything else is reported to the screen as unhandled.
pub open spec fn server_message_outcome(
    before: ControllerView,
    msg: ServerMessage,
    after: ControllerView,
    actions: Seq<SessionAction>,
) -> bool {
    match msg {
        ServerMessage::StreamStart(None) => after == before && actions == Seq::<SessionAction>::empty(),
        ServerMessage::StreamStart(Some(cfg)) => {
            &&& after == before
            &&& if is_pcm(cfg.codec@) {
                actions == seq![
                    SessionAction::UseFormat(pcm_format_of(cfg)),
                    SessionAction::Notify(AppEvent::StreamStarted(pcm_format_of(cfg))),
                ]
            } else {
                &&& actions.len() == 1
                &&& actions[0] matches SessionAction::Notify(AppEvent::Error(text))
                &&& text@ == "Unsupported codec: "@ + cfg.codec@
            }
        },
        ServerMessage::StreamEnd => after == before && actions == seq![
            SessionAction::ClearPlayer,
            SessionAction::Notify(AppEvent::StreamEnded),
        ],
        ServerMessage::StreamClear => after == before && actions == seq![SessionAction::ClearPlayer],
        ServerMessage::ServerState { metadata, controller } => {
            &&& after == controller_observed(before, metadata, controller)
            &&& actions == metadata_notice(metadata) + controller_notice(controller)
        },
        ServerMessage::ServerCommand(None) => after == before && actions == Seq::<SessionAction>::empty(),
        ServerMessage::ServerCommand(Some(cmd)) => after == before && actions == seq![
            SessionAction::Player(player_action_of(cmd)),
        ],
        ServerMessage::GroupUpdate { playback_state, group_name } => after == before && actions
            == seq![SessionAction::Notify(AppEvent::GroupUpdate { playback_state, group_name })],
        ServerMessage::Other(debug) => {
            &&& after == before
            &&& actions.len() == 1
            &&& actions[0] matches SessionAction::Notify(AppEvent::Error(text))
            &&& is_unhandled_notice(debug@, text@)
        },
    }
}

/// What a user command does: "quit" stops the protocol task; any other
/// command changes the controller state, tells the screen the new state and
/// may send a command message to the server.
#[derive(Debug)]
pub enum CommandOutcome {
    Stop,
    Update { event: AppEvent, message: Option<ControllerCommand> },
}

impl ControllerView {
    /// Answers a server message (see `server_message_outcome`).
    pub fn on_server_message(&mut self, msg: ServerMessage) -> (actions: Vec<SessionAction>)
        requires
            answerable(msg),
        ensures
            server_message_outcome(*old(self), msg, *final(self), actions@),
    {
        let mut actions: Vec<SessionAction> = Vec::new();
        match msg {
            ServerMessage::StreamStart(player) => {
                if player.is_none() {
                    assert(actions@ =~= Seq::<SessionAction>::empty());
                }
                if let Some(config) = player {
                    match stream_format(&config) {
                        Err(notice) => {
                            actions.push(SessionAction::Notify(AppEvent::Error(notice)));
                        },
                        Ok(format) => {
                            actions.push(SessionAction::UseFormat(format));
                            actions.push(SessionAction::Notify(AppEvent::StreamStarted(pcm_format(&config))));
                            assert(actions@ =~= seq![
                                SessionAction::UseFormat(pcm_format_of(config)),
                                SessionAction::Notify(AppEvent::StreamStarted(pcm_format_of(config))),
                            ]);
                        },
                    }
                }
            },
            ServerMessage::StreamEnd => {
                actions.push(SessionAction::ClearPlayer);
                actions.push(SessionAction::Notify(AppEvent::StreamEnded));
                assert(actions@ =~= seq![
                    SessionAction::ClearPlayer,
                    SessionAction::Notify(AppEvent::StreamEnded),
                ]);
            },
            ServerMessage::StreamClear => {
                actions.push(SessionAction::ClearPlayer);
                assert(actions@ =~= seq![SessionAction::ClearPlayer]);
            },
            ServerMessage::ServerState { metadata, controller } => {
                let ghost first = metadata_notice(metadata);
                let ghost second = controller_notice(controller);
                self.observe_server_state(metadata.as_ref(), controller.as_ref());
                if let Some(m) = metadata {
                    actions.push(SessionAction::Notify(AppEvent::Metadata(m)));
                }
                assert(actions@ =~= first);
                if let Some(c) = controller {
                    actions.push(SessionAction::Notify(AppEvent::Controller(c)));
                }
                assert(actions@ =~= first + second);
            },
            ServerMessage::ServerCommand(player) => {
                if let Some(cmd) = player {
                    actions.push(SessionAction::Player(player_command_action(&cmd)));
                    assert(actions@ =~= seq![SessionAction::Player(player_action_of(cmd))]);
                } else {
                    assert(actions@ =~= Seq::<SessionAction>::empty());
                }
            },
            ServerMessage::GroupUpdate { playback_state, group_name } => {
                actions.push(SessionAction::Notify(AppEvent::GroupUpdate { playback_state, group_name }));
                assert(actions@ =~= seq![
                    SessionAction::Notify(AppEvent::GroupUpdate { playback_state, group_name }),
                ]);
            },
            ServerMessage::Other(debug) => {
                actions.push(SessionAction::Notify(AppEvent::Error(unhandled_notice(debug.as_str()))));
            },
        }
        actions
    }

    /// Answers a user command: "quit" stops; any other command is applied
    /// (see `apply_command`) and the screen is told the new state.
    pub fn on_user_command(&mut self, cmd: Command) -> (r: CommandOutcome)
        ensures
            cmd == Command::Quit ==> r is Stop && *final(self) == *old(self),
            cmd != Command::Quit ==> {
                &&& *final(self) == controller_after(cmd, *old(self))
                &&& r == (CommandOutcome::Update {
                    event: AppEvent::LocalStateUpdate {
                        volume: final(self).volume,
                        muted: final(self).muted,
                        playing: final(self).playing,
                        repeat: final(self).repeat,
                        shuffle: final(self).shuffle,
                    },
                    message: command_message(cmd, *final(self)),
                })
            },
    {
        if cmd == Command::Quit {
            return CommandOutcome::Stop;
        }
        let message = self.apply(cmd);
        CommandOutcome::Update { event: self.local_state_event(), message }
    }
}

/// Only server state moves the controller state: any other server message
/// leaves it as it was.
pub proof fn law_only_server_state_moves_controller(
    before: ControllerView,
    msg: ServerMessage,
    after: ControllerView,
    actions: Seq<SessionAction>,
)
    requires
        server_message_outcome(before, msg, after, actions),
        !(msg is ServerState),
    ensures
        after == before,
{
}

/// A command issued twice in a row undoes itself when it toggles: play/pause,
/// mute and shuffle.
pub proof fn law_toggles_undo_themselves(c: ControllerView)
    ensures
        controller_after(Command::PlayPause, controller_after(Command::PlayPause, c)) == c,
        controller_after(Command::Mute, controller_after(Command::Mute, c)) == c,
        controller_after(Command::ToggleShuffle, controller_after(Command::ToggleShuffle, c)) == c,
{
}

/// Cycling the repeat mode three times comes back to where it started, and
/// goes through off, all, one in that order.
pub proof fn law_repeat_cycles_through_three(c: ControllerView)
    ensures
        controller_after(
            Command::CycleRepeat,
            controller_after(Command::CycleRepeat, controller_after(Command::CycleRepeat, c)),
        ) == c,
        next_repeat(RepeatMode::Off) == RepeatMode::All,
        next_repeat(RepeatMode::All) == RepeatMode::One,
        next_repeat(RepeatMode::One) == RepeatMode::Off,
{
}

/// Volume commands keep the volume within 0-100 once it is there, never
/// raise it past 100, and undo each other away from the ends of the range.
pub proof fn law_volume_commands(c: ControllerView, cmd: Command)
    ensures
        c.volume <= 100 ==> controller_after(cmd, c).volume <= 100,
        controller_after(Command::VolumeUp, c).volume <= 100,
        controller_after(Command::VolumeDown, c).volume <= c.volume,
        c.volume <= 95 ==> volume_down(volume_up(c.volume)) == c.volume,
        5 <= c.volume <= 100 ==> volume_up(volume_down(c.volume)) == c.volume,
{
}

/// Every command but "quit" sends a message, and the message reports the
/// state the command left behind: a volume command carries the new volume,
/// a mute command the new mute flag, and only they carry values.
pub proof fn law_message_reports_new_state(cmd: Command, c: ControllerView)
    ensures
        ({
            let after = controller_after(cmd, c);
            let msg = command_message(cmd, after);
            &&& (msg is None <==> cmd == Command::Quit)
            &&& msg matches Some(m) ==> {
                &&& (m.volume is Some <==> m.command == ControllerCommandKind::Volume)
                &&& (m.mute is Some <==> m.command == ControllerCommandKind::Mute)
                &&& m.volume matches Some(v) ==> v == after.volume
                &&& m.mute matches Some(b) ==> b == after.muted
            }
        }),
{
}

/// Only play/pause changes the playing flag, only the volume commands the
/// volume, only mute the mute flag, only cycle-repeat the repeat mode and
/// only toggle-shuffle the shuffle flag; next, previous and quit change
/// nothing.
pub proof fn law_commands_change_only_their_part(cmd: Command, c: ControllerView)
    ensures
        ({
            let a = controller_after(cmd, c);
            &&& cmd != Command::PlayPause ==> a.playing == c.playing
            &&& (cmd != Command::VolumeUp && cmd != Command::VolumeDown) ==> a.volume == c.volume
            &&& cmd != Command::Mute ==> a.muted == c.muted
            &&& cmd != Command::CycleRepeat ==> a.repeat == c.repeat
            &&& cmd != Command::ToggleShuffle ==> a.shuffle == c.shuffle
            &&& (cmd == Command::Next || cmd == Command::Previous || cmd == Command::Quit) ==> a == c
        }),
{
}

/// Server state sets what it reports: a reported progress makes the playing
/// flag exactly "the speed is positive" (a paused track, speed 0, is not
/// playing), reported repeat and shuffle are taken over, and a reported
/// controller state sets volume and mute. What is not reported is kept.
pub proof fn law_observed_state_follows_server(
    c: ControllerView,
    m: MetadataState,
    p: TrackProgress,
    ctrl: ControllerState,
)
    ensures
        m.progress == Some(p) ==> controller_observed(c, Some(m), None).playing == (p.playback_speed > 0),
        m.progress == Some(p) ==> controller_observed(c, Some(m), Some(ctrl)).playing == (p.playback_speed
            > 0),
        m.progress is None ==> controller_observed(c, Some(m), None).playing == c.playing,
        m.repeat matches Some(r) ==> controller_observed(c, Some(m), None).repeat == r,
        m.shuffle matches Some(b) ==> controller_observed(c, Some(m), None).shuffle == b,
        m.repeat is None ==> controller_observed(c, Some(m), None).repeat == c.repeat,
        m.shuffle is None ==> controller_observed(c, Some(m), None).shuffle == c.shuffle,
        controller_observed(c, None, Some(ctrl)).volume == ctrl.volume,
        controller_observed(c, None, Some(ctrl)).muted == ctrl.muted,
        controller_observed(c, Some(m), None).volume == c.volume,
        controller_observed(c, Some(m), None).muted == c.muted,
        controller_observed(c, None, None) == c,
{
}

/// Volume commands move the volume in steps of five: away from the ends of
/// the range "up" adds exactly 5 and "down" takes exactly 5 away, and at the
/// ends they stop at 100 and 0.
pub proof fn law_volume_steps_of_five(c: ControllerView)
    ensures
        c.volume <= 95 ==> controller_after(Command::VolumeUp, c).volume == c.volume + 5,
        95 < c.volume ==> controller_after(Command::VolumeUp, c).volume == 100,
        c.volume >= 5 ==> controller_after(Command::VolumeDown, c).volume == c.volume - 5,
        c.volume < 5 ==> controller_after(Command::VolumeDown, c).volume == 0,
{
}

} // verus!
