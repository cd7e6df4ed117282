//! Pieces shared by the terminal player and the headless daemon.

use crate::text::{decimal_text, digit_char};
use std::time::Duration;
use vstd::prelude::*;

verus! {

/// Software version announced in the hello message: the package's version,
/// written out here and kept in step with `Cargo.toml` by hand.
pub const SOFTWARE_VERSION: &'static str = "0.1.0";

/// Whether `c` is a lower-case hexadecimal digit.
pub open spec fn is_lower_hex(c: char) -> bool {
    ('0' <= c <= '9') || ('a' <= c <= 'f')
}

/// Whether `s` is a random (version 4, RFC 4122 variant) UUID in lower-case
/// hyphenated form, `xxxxxxxx-xxxx-4xxx-yxxx-xxxxxxxxxxxx` with `y` one of
/// `8 9 a b`.
pub open spec fn is_hyphenated_v4_uuid(s: Seq<char>) -> bool {
    &&& s.len() == 36
    &&& forall|i: int|
        0 <= i < 36 ==> (if i == 8 || i == 13 || i == 18 || i == 23 {
            s[i] == '-'
        } else {
            is_lower_hex(#[trigger] s[i])
        })
    &&& s[14] == '4'
    &&& (s[19] == '8' || s[19] == '9' || s[19] == 'a' || s[19] == 'b')
}

/// Calls `uuid::Uuid::new_v4()` and renders it with `to_string()`. The value
/// is random; what is promised is its shape: `Display` for `Uuid` writes the
/// lower-case hyphenated form, and `new_v4` sets the version nibble to 4 and
/// the variant bits to `10`.
#[verifier::external_body]
fn random_client_id() -> (id: String)
    ensures
        is_hyphenated_v4_uuid(id@),
{
    uuid::Uuid::new_v4().to_string()
}

/// An audio format the player can decode.
#[derive(Debug, Clone)]
pub struct AudioFormatSpec {
    pub codec: String,
    pub channels: u8,
    pub sample_rate: u32,
    pub bit_depth: u8,
}

/// Device description in the hello message.
#[derive(Debug, Clone)]
pub struct DeviceInfo {
    pub product_name: Option<String>,
    pub manufacturer: Option<String>,
    pub software_version: Option<String>,
}

/// What the player announces it can do.
#[derive(Debug, Clone)]
pub struct PlayerV1Support {
    pub supported_formats: Vec<AudioFormatSpec>,
    pub buffer_capacity: u32,
    pub supported_commands: Vec<String>,
}

/// The hello message a client opens a connection with. The artwork and
/// visualizer roles are never announced.
#[derive(Debug, Clone)]
pub struct ClientHello {
    pub client_id: String,
    pub name: String,
    pub version: u32,
    pub supported_roles: Vec<String>,
    pub device_info: Option<DeviceInfo>,
    pub player_v1_support: Option<PlayerV1Support>,
}

/// Text of each string in a vector.
pub open spec fn texts(v: Seq<String>) -> Seq<Seq<char>> {
    v.map_values(|s: String| s@)
}

/// Whether `f` is 48 kHz stereo PCM at `bits` bits per sample.
pub open spec fn is_pcm_stereo_48k(f: AudioFormatSpec, bits: u8) -> bool {
    &&& f.codec@ == "pcm"@
    &&& f.channels == 2
    &&& f.sample_rate == 48000
    &&& f.bit_depth == bits
}

/// Buffer capacity announced to the server: 50 MiB.
pub const BUFFER_CAPACITY: u32 = 52_428_800;

fn pcm_stereo_48k(bits: u8) -> (f: AudioFormatSpec)
    ensures
        is_pcm_stereo_48k(f, bits),
{
    AudioFormatSpec { codec: String::from_str("pcm"), channels: 2, sample_rate: 48000, bit_depth: bits }
}

/// Builds the hello message with the player, controller and metadata roles:
/// a fresh random client id, protocol version 1, the given client and
/// product names, 48 kHz stereo PCM at 24 and 16 bits, a 50 MiB buffer, and
/// the volume and mute commands.
pub fn build_hello(client_name: &str, product_name: &str) -> (h: ClientHello)
    ensures
        is_hyphenated_v4_uuid(h.client_id@),
        h.name@ == client_name@,
        h.version == 1,
        texts(h.supported_roles@) == seq!["player@v1"@, "controller@v1"@, "metadata@v1"@],
        h.device_info matches Some(d) && {
            &&& d.product_name matches Some(p) && p@ == product_name@
            &&& d.manufacturer matches Some(m) && m@ == "Sendspin"@
            &&& d.software_version matches Some(v) && v@ == SOFTWARE_VERSION@
        },
        h.player_v1_support matches Some(p) && {
            &&& p.supported_formats.len() == 2
            &&& is_pcm_stereo_48k(p.supported_formats@[0], 24)
            &&& is_pcm_stereo_48k(p.supported_formats@[1], 16)
            &&& p.buffer_capacity == 50 * 1024 * 1024
            &&& texts(p.supported_commands@) == seq!["volume"@, "mute"@]
        },
{
    let mut roles: Vec<String> = Vec::new();
    roles.push(String::from_str("player@v1"));
    roles.push(String::from_str("controller@v1"));
    roles.push(String::from_str("metadata@v1"));
    let mut formats: Vec<AudioFormatSpec> = Vec::new();
    formats.push(pcm_stereo_48k(24));
    formats.push(pcm_stereo_48k(16));
    let mut commands: Vec<String> = Vec::new();
    commands.push(String::from_str("volume"));
    commands.push(String::from_str("mute"));
    proof {
        assert(texts(roles@) =~= seq!["player@v1"@, "controller@v1"@, "metadata@v1"@]);
        assert(texts(commands@) =~= seq!["volume"@, "mute"@]);
    }
    ClientHello {
        client_id: random_client_id(),
        name: String::from_str(client_name),
        version: 1,
        supported_roles: roles,
        device_info: Some(
            DeviceInfo {
                product_name: Some(String::from_str(product_name)),
                manufacturer: Some(String::from_str("Sendspin")),
                software_version: Some(String::from_str(SOFTWARE_VERSION)),
            },
        ),
        player_v1_support: Some(
            PlayerV1Support {
                supported_formats: formats,
                buffer_capacity: BUFFER_CAPACITY,
                supported_commands: commands,
            },
        ),
    }
}

/// Kind of a command the server sends to the player.
#[derive(Debug, Clone, Copy, PartialEq, Eq, Structural)]
pub enum PlayerCommandKind {
    Volume,
    Mute,
    /// Any command this player does not act on.
    Other,
}

/// A command from the server to the player.
#[derive(Debug, Clone, Copy, PartialEq, Eq, Structural)]
pub struct PlayerCommand {
    pub command: PlayerCommandKind,
    pub volume: Option<u8>,
    pub mute: Option<bool>,
}

/// What the audio output should do for a server player command.
#[derive(Debug, Clone, Copy, PartialEq, Eq, Structural)]
pub enum PlayerAction {
    SetVolume(u8),
    SetMute(bool),
    Nothing,
}

/// What a server player command does to the audio output.
pub open spec fn player_action_of(cmd: PlayerCommand) -> PlayerAction {
    match (cmd.command, cmd.volume, cmd.mute) {
        (PlayerCommandKind::Volume, Some(v), _) => PlayerAction::SetVolume(v),
        (PlayerCommandKind::Mute, _, Some(m)) => PlayerAction::SetMute(m),
        _ => PlayerAction::Nothing,
    }
}

/// Decides what a server player command does to the audio output: a volume
/// command with a volume sets it, a mute command with a mute flag sets it,
/// anything else does nothing.
pub fn player_command_action(cmd: &PlayerCommand) -> (a: PlayerAction)
    ensures
        a == player_action_of(*cmd),
{
    match cmd.command {
        PlayerCommandKind::Volume => {
            if let Some(vol) = cmd.volume {
                return PlayerAction::SetVolume(vol);
            }
        },
        PlayerCommandKind::Mute => {
            if let Some(muted) = cmd.mute {
                return PlayerAction::SetMute(muted);
            }
        },
        PlayerCommandKind::Other => {},
    }
    PlayerAction::Nothing
}

/// Shortest reconnection delay, in milliseconds.
pub const BACKOFF_MIN_MS: u64 = 100;

/// Longest reconnection delay, in milliseconds.
pub const BACKOFF_MAX_MS: u64 = 30_000;

/// The `Duration` that `Duration::from_millis` builds from a millisecond count.
pub uninterp spec fn duration_of_millis(ms: u64) -> Duration;

/// Calls `std::time::Duration::from_millis`; the result is named
/// `duration_of_millis(ms)` (a pure function of `ms`).
#[verifier::external_body]
fn millis_to_duration(ms: u64) -> (d: Duration)
    ensures
        d == duration_of_millis(ms),
{
    Duration::from_millis(ms)
}

/// One step of the backoff schedule: double, but never past the cap.
pub open spec fn backoff_step(current: nat, max: nat) -> nat {
    if 2 * current <= max {
        2 * current
    } else {
        max
    }
}

/// The delay handed out by the `k`-th call to `next_delay` on a fresh backoff
/// (counting from 0), with no reset in between.
pub open spec fn backoff_delay(k: nat) -> nat
    decreases k,
{
    if k == 0 {
        BACKOFF_MIN_MS as nat
    } else {
        backoff_step(backoff_delay((k - 1) as nat), BACKOFF_MAX_MS as nat)
    }
}

/// Delays double from 100ms, and from the ninth call on they stay at the 30s
/// cap: the `k`-th delay is `min(100 * 2^k, 30000)` milliseconds.
pub proof fn law_backoff_doubles_up_to_cap(k: nat)
    ensures
        backoff_delay(k) == if BACKOFF_MIN_MS * vstd::arithmetic::power2::pow2(k) <= BACKOFF_MAX_MS {
            BACKOFF_MIN_MS * vstd::arithmetic::power2::pow2(k)
        } else {
            BACKOFF_MAX_MS as int
        },
        BACKOFF_MIN_MS <= backoff_delay(k) <= BACKOFF_MAX_MS,
    decreases k,
{
    vstd::arithmetic::power2::lemma_pow2_pos(k);
    if k == 0 {
        vstd::arithmetic::power2::lemma2_to64();
    } else {
        law_backoff_doubles_up_to_cap((k - 1) as nat);
        vstd::arithmetic::power2::lemma_pow2_unfold(k);
        let prev = vstd::arithmetic::power2::pow2((k - 1) as nat);
        let cur = vstd::arithmetic::power2::pow2(k);
        assert(100 * cur == 2 * (100 * prev)) by (nonlinear_arith)
            requires
                cur == 2 * prev,
        ;
    }
}

/// Exponential backoff for reconnection (100ms to 30s, 2x factor).
pub struct Backoff {
    current_ms: u64,
    min_ms: u64,
    max_ms: u64,
}

impl Backoff {
    #[verifier::type_invariant]
    spec fn well_formed(self) -> bool {
        &&& 0 < self.min_ms <= self.current_ms <= self.max_ms
        &&& self.max_ms <= u64::MAX / 2
    }

    /// The delay, in milliseconds, that the next call to `next_delay` hands out.
    pub closed spec fn current_ms(self) -> nat {
        self.current_ms as nat
    }

    /// The delay that `reset` returns to.
    pub closed spec fn min_ms(self) -> nat {
        self.min_ms as nat
    }

    /// The cap on every delay.
    pub closed spec fn max_ms(self) -> nat {
        self.max_ms as nat
    }

    /// A backoff that starts at 100ms and is capped at 30s.
    pub fn new() -> (b: Self)
        ensures
            b.current_ms() == BACKOFF_MIN_MS,
            b.min_ms() == BACKOFF_MIN_MS,
            b.max_ms() == BACKOFF_MAX_MS,
    {
        Backoff { current_ms: BACKOFF_MIN_MS, min_ms: BACKOFF_MIN_MS, max_ms: BACKOFF_MAX_MS }
    }

    /// Hands out the current delay and doubles the next one, up to the cap.
    pub fn next_delay(&mut self) -> (delay: Duration)
        ensures
            delay == duration_of_millis(old(self).current_ms() as u64),
            final(self).current_ms() == backoff_step(old(self).current_ms(), old(self).max_ms()),
            final(self).min_ms() == old(self).min_ms(),
            final(self).max_ms() == old(self).max_ms(),
            old(self).min_ms() <= old(self).current_ms() <= old(self).max_ms(),
    {
        proof {
            use_type_invariant(&*self);
        }
        let current = self.current_ms;
        let doubled = current * 2;
        self.current_ms = if doubled <= self.max_ms { doubled } else { self.max_ms };
        millis_to_duration(current)
    }

    /// The delay before the next connection attempt once a session is over:
    /// after a session that ended cleanly the schedule starts over (the
    /// shortest delay); after a failed attempt it keeps backing off.
    pub fn delay_after_session(&mut self, ended_cleanly: bool) -> (delay: Duration)
        ensures
            ({
                let from = if ended_cleanly {
                    old(self).min_ms()
                } else {
                    old(self).current_ms()
                };
                &&& delay == duration_of_millis(from as u64)
                &&& final(self).current_ms() == backoff_step(from, old(self).max_ms())
                &&& final(self).min_ms() == old(self).min_ms()
                &&& final(self).max_ms() == old(self).max_ms()
            }),
    {
        if ended_cleanly {
            self.reset();
        }
        self.next_delay()
    }

    /// Starts the schedule over from the shortest delay.
    pub fn reset(&mut self)
        ensures
            final(self).current_ms() == old(self).min_ms(),
            final(self).min_ms() == old(self).min_ms(),
            final(self).max_ms() == old(self).max_ms(),
    {
        proof {
            use_type_invariant(&*self);
        }
        self.current_ms = self.min_ms;
    }
}

impl Default for Backoff {
    /// Same as `Backoff::new`.
    fn default() -> (b: Self)
        ensures
            b.current_ms() == BACKOFF_MIN_MS,
            b.min_ms() == BACKOFF_MIN_MS,
            b.max_ms() == BACKOFF_MAX_MS,
    {
        Self::new()
    }
}


/// Whether `c` is an ASCII decimal digit.
pub open spec fn is_digit(c: char) -> bool {
    '0' <= c <= '9'
}

/// Value of a decimal digit.
pub open spec fn digit_value(c: char) -> int {
    c as int - '0' as int
}

/// Value of a run of decimal digits, most significant first.
pub open spec fn decimal_value(s: Seq<char>) -> int
    decreases s.len(),
{
    if s.len() == 0 {
        0
    } else {
        decimal_value(s.drop_last()) * 10 + digit_value(s.last())
    }
}

/// The text after an optional leading `+`.
pub open spec fn digits_part(s: Seq<char>) -> Seq<char> {
    if s.len() > 0 && s[0] == '+' {
        s.drop_first()
    } else {
        s
    }
}

/// Whether every character of `s` is a decimal digit.
pub open spec fn all_digits(s: Seq<char>) -> bool {
    forall|i: int| 0 <= i < s.len() ==> is_digit(#[trigger] s[i])
}

/// How `str::parse::<usize>` reads text: an optional leading `+`, then one
/// or more ASCII digits whose value fits in `usize`; anything else is an error.
pub open spec fn parse_usize_spec(s: Seq<char>) -> Option<usize> {
    let digits = digits_part(s);
    if digits.len() > 0 && all_digits(digits) && decimal_value(digits) <= usize::MAX {
        Some(decimal_value(digits) as usize)
    } else {
        None
    }
}

proof fn lemma_decimal_value_nonneg(s: Seq<char>)
    requires
        forall|i: int| 0 <= i < s.len() ==> is_digit(#[trigger] s[i]),
    ensures
        decimal_value(s) >= 0,
    decreases s.len(),
{
    if s.len() > 0 {
        lemma_decimal_value_nonneg(s.drop_last());
    }
}

/// Reads a decimal `usize` the way `str::parse::<usize>` does.
pub fn parse_usize(s: &str) -> (r: Option<usize>)
    ensures
        r == parse_usize_spec(s@),
{
    let n = s.unicode_len();
    let start: usize = if n > 0 && s.get_char(0) == '+' {
        1
    } else {
        0
    };
    let ghost digits = s@.subrange(start as int, n as int);
    assert(digits =~= digits_part(s@));
    if start == n {
        return None;
    }
    let mut i: usize = start;
    let mut value: usize = 0;
    let mut overflow = false;
    while i < n
        invariant
            start <= i <= n,
            n == s@.len(),
            digits == s@.subrange(start as int, n as int),
            digits == digits_part(s@),
            forall|j: int| start <= j < i ==> is_digit(#[trigger] s@[j]),
            !overflow ==> value == decimal_value(s@.subrange(start as int, i as int)),
            overflow ==> decimal_value(s@.subrange(start as int, i as int)) > usize::MAX,
        decreases n - i,
    {
        let c = s.get_char(i);
        if !('0' <= c && c <= '9') {
            assert(digits[i - start] == c);
            assert(!is_digit(digits[i - start]));
            assert(!all_digits(digits));
            return None;
        }
        let d = (c as u32 - '0' as u32) as usize;
        let ghost prefix = s@.subrange(start as int, i as int);
        let ghost next = s@.subrange(start as int, i + 1);
        assert(next.drop_last() =~= prefix);
        assert(next.last() == c);
        proof {
            lemma_decimal_value_nonneg(prefix);
        }
        if !overflow {
            match value.checked_mul(10) {
                Some(tens) => match tens.checked_add(d) {
                    Some(v) => {
                        value = v;
                    },
                    None => {
                        overflow = true;
                    },
                },
                None => {
                    overflow = true;
                },
            }
        }
        i += 1;
    }
    assert(s@.subrange(start as int, n as int) == digits);
    assert forall|j: int| 0 <= j < digits.len() implies is_digit(#[trigger] digits[j]) by {
        assert(digits[j] == s@[start + j]);
    }
    assert(all_digits(digits));
    if overflow {
        None
    } else {
        Some(value)
    }
}

/// Which audio device the user asked for: its position among the devices
/// that can play audio, or its id.
#[derive(Debug, Clone)]
pub enum DeviceQuery {
    Index(usize),
    Id(String),
}

/// Reads a device query: text that parses as a number picks by position,
/// anything else picks by id.
pub fn parse_device_query(query: &str) -> (q: DeviceQuery)
    ensures
        match parse_usize_spec(query@) {
            Some(n) => q matches DeviceQuery::Index(i) && i == n,
            None => q matches DeviceQuery::Id(id) && id@ == query@,
        },
{
    match parse_usize(query) {
        Some(n) => DeviceQuery::Index(n),
        None => DeviceQuery::Id(String::from_str(query)),
    }
}

/// Whether the `usable_index`-th usable device, whose id reads `device_id`,
/// is the one the query asks for.
pub open spec fn query_matches(query: DeviceQuery, usable_index: int, device_id: Seq<char>) -> bool {
    match query {
        DeviceQuery::Index(n) => usable_index == n,
        DeviceQuery::Id(id) => device_id == id@,
    }
}

/// Whether the `usable_index`-th usable device, whose id reads `device_id`
/// (empty when the id cannot be read), is the one the query asks for.
pub fn device_matches(query: &DeviceQuery, usable_index: usize, device_id: &str) -> (b: bool)
    ensures
        b == query_matches(*query, usable_index as int, device_id@),
{
    match query {
        DeviceQuery::Index(n) => usable_index == *n,
        DeviceQuery::Id(id) => String::from_str(device_id) == *id,
    }
}


/// Picks the device a query asks for among the usable devices, given their
/// ids in listing order (empty where an id cannot be read): the first one
/// that matches, or `None` when none does.
pub fn first_matching_device(query: &DeviceQuery, device_ids: &Vec<String>) -> (r: Option<usize>)
    ensures
        match r {
            Some(i) => {
                &&& i < device_ids.len()
                &&& query_matches(*query, i as int, device_ids@[i as int]@)
                &&& forall|j: int| 0 <= j < i ==> !query_matches(*query, j, #[trigger] device_ids@[j]@)
            },
            None => forall|j: int|
                0 <= j < device_ids.len() ==> !query_matches(*query, j, #[trigger] device_ids@[j]@),
        },
{
    let mut i: usize = 0;
    while i < device_ids.len()
        invariant
            i <= device_ids.len(),
            forall|j: int| 0 <= j < i ==> !query_matches(*query, j, #[trigger] device_ids@[j]@),
        decreases device_ids.len() - i,
    {
        if device_matches(query, i, device_ids[i].as_str()) {
            return Some(i);
        }
        i += 1;
    }
    None
}

pub(crate) proof fn lemma_decimal_text_reads_back(n: nat)
    ensures
        decimal_text(n).len() >= 1,
        all_digits(decimal_text(n)),
        decimal_value(decimal_text(n)) == n,
    decreases n,
{
    let t = decimal_text(n);
    if n < 10 {
        assert(t.drop_last() =~= Seq::<char>::empty());
    } else {
        lemma_decimal_text_reads_back(n / 10);
        let head = decimal_text(n / 10);
        assert(t.drop_last() =~= head);
        assert forall|i: int| 0 <= i < t.len() implies is_digit(#[trigger] t[i]) by {
            if i < head.len() {
                assert(t[i] == head[i]);
            }
        }
    }
    let d = n % 10;
    assert(digit_value(digit_char(d as int)) == d);
    assert(t.last() == digit_char(d as int));
    assert(decimal_value(t) == decimal_value(t.drop_last()) * 10 + digit_value(t.last()));
    assert(n == (n / 10) * 10 + d);
}

/// A device position written out in decimal (as the device list shows it)
/// reads back as that same position when given as a device query.
pub proof fn law_listed_index_selects_device(n: usize)
    ensures
        parse_usize_spec(decimal_text(n as nat)) == Some(n),
{
    lemma_decimal_text_reads_back(n as nat);
    let t = decimal_text(n as nat);
    assert(is_digit(t[0]));
    assert(digits_part(t) == t);
}

/// A mute command carrying a flag sets the output's mute to that flag, muting
/// or unmuting; a volume command carrying a volume sets that volume; a
/// command missing its value, or of another kind, does nothing.
pub proof fn law_player_command_sets_what_it_carries(cmd: PlayerCommand, m: bool, v: u8)
    ensures
        cmd.command == PlayerCommandKind::Mute && cmd.mute == Some(m) ==> player_action_of(cmd)
            == PlayerAction::SetMute(m),
        cmd.command == PlayerCommandKind::Volume && cmd.volume == Some(v) ==> player_action_of(cmd)
            == PlayerAction::SetVolume(v),
        cmd.command == PlayerCommandKind::Mute && cmd.mute is None ==> player_action_of(cmd)
            == PlayerAction::Nothing,
        cmd.command == PlayerCommandKind::Volume && cmd.volume is None ==> player_action_of(cmd)
            == PlayerAction::Nothing,
        cmd.command == PlayerCommandKind::Other ==> player_action_of(cmd) == PlayerAction::Nothing,
{
}

} // verus!
