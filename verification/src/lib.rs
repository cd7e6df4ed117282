//! Verified core of a terminal player for the Sendspin synchronized-audio
//! protocol: the player state machine, the controller state that user
//! commands act on, the reconnection backoff, and the text the screen shows.

pub mod app;
mod clock;
pub mod event;
pub mod protocol;
pub mod shared;
mod text;
pub mod tui;
pub mod ui;
