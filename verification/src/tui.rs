//! Which key does what on the player screen.

use crate::event::Command;
use vstd::prelude::*;

verus! {

/// A key the user pressed.
#[derive(Debug, Clone, Copy, PartialEq, Eq, Structural)]
pub enum Key {
    Char(char),
    Esc,
    Left,
    Right,
    Up,
    Down,
    /// Any other key.
    Other,
}

/// The command a key press issues: q or Esc quit, space plays or pauses,
/// n or Right skips ahead, p or Left skips back, Up, + or = raise the
/// volume, Down or - lower it, m mutes, r cycles repeat, s toggles shuffle;
/// every other key does nothing.
pub open spec fn key_command_spec(key: Key) -> Option<Command> {
    match key {
        Key::Esc => Some(Command::Quit),
        Key::Right => Some(Command::Next),
        Key::Left => Some(Command::Previous),
        Key::Up => Some(Command::VolumeUp),
        Key::Down => Some(Command::VolumeDown),
        Key::Other => None,
        Key::Char(c) => if c == 'q' {
            Some(Command::Quit)
        } else if c == ' ' {
            Some(Command::PlayPause)
        } else if c == 'n' {
            Some(Command::Next)
        } else if c == 'p' {
            Some(Command::Previous)
        } else if c == '+' || c == '=' {
            Some(Command::VolumeUp)
        } else if c == '-' {
            Some(Command::VolumeDown)
        } else if c == 'm' {
            Some(Command::Mute)
        } else if c == 'r' {
            Some(Command::CycleRepeat)
        } else if c == 's' {
            Some(Command::ToggleShuffle)
        } else {
            None
        },
    }
}

/// The command a key press issues, if any.
pub fn key_command(key: Key) -> (c: Option<Command>)
    ensures
        c == key_command_spec(key),
{
    match key {
        Key::Char('q') | Key::Esc => Some(Command::Quit),
        Key::Char(' ') => Some(Command::PlayPause),
        Key::Char('n') | Key::Right => Some(Command::Next),
        Key::Char('p') | Key::Left => Some(Command::Previous),
        Key::Up | Key::Char('+') | Key::Char('=') => Some(Command::VolumeUp),
        Key::Down | Key::Char('-') => Some(Command::VolumeDown),
        Key::Char('m') => Some(Command::Mute),
        Key::Char('r') => Some(Command::CycleRepeat),
        Key::Char('s') => Some(Command::ToggleShuffle),
        _ => None,
    }
}

/// The key bindings, key by key: each command is issued by exactly the keys
/// listed for it, and every other key issues nothing.
pub proof fn law_key_bindings(k: Key)
    ensures
        key_command_spec(k) == Some(Command::Quit) <==> (k == Key::Char('q') || k == Key::Esc),
        key_command_spec(k) == Some(Command::PlayPause) <==> k == Key::Char(' '),
        key_command_spec(k) == Some(Command::Next) <==> (k == Key::Char('n') || k == Key::Right),
        key_command_spec(k) == Some(Command::Previous) <==> (k == Key::Char('p') || k == Key::Left),
        key_command_spec(k) == Some(Command::VolumeUp) <==> (k == Key::Up || k == Key::Char('+') || k
            == Key::Char('=')),
        key_command_spec(k) == Some(Command::VolumeDown) <==> (k == Key::Down || k == Key::Char('-')),
        key_command_spec(k) == Some(Command::Mute) <==> k == Key::Char('m'),
        key_command_spec(k) == Some(Command::CycleRepeat) <==> k == Key::Char('r'),
        key_command_spec(k) == Some(Command::ToggleShuffle) <==> k == Key::Char('s'),
{
}

} // verus!
