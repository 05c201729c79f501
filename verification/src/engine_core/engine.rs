//! What a game tells the engine about itself, and the decisions of the
//! engine's frame loop.
use vstd::prelude::*;

verus! {

/// The game's title, version, window size and the directory of its
/// manifest.
pub struct GameInfo {
    pub title: String,
    pub game_version: u32,
    pub window_width: u32,
    pub window_height: u32,
    pub manifest_dir: String,
}

/// The game the engine runs until one is registered: it stops at once.
pub struct DefaultGame {}

/// The frame loop goes on while the window system still delivers messages
/// and the window has not been asked to close.
pub fn keep_running(window_messages_pumped: bool, window_should_close: bool) -> (r: bool)
    ensures
        r == (window_messages_pumped && !window_should_close),
{
    window_messages_pumped && !window_should_close
}

} // verus!
