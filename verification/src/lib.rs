use vstd::prelude::*;

pub mod obstacle;
pub mod player;
pub mod random_source;
pub mod state;

verus! {

/// Width of the drawable surface, in character cells; also the distance, in
/// world columns, that a fresh obstacle is placed ahead of the player.
pub const SCREEN_WIDTH: i32 = 80;

/// Height of the drawable surface, in character cells; a player whose row
/// exceeds it has fallen off the screen.
pub const SCREEN_HEIGHT: i32 = 50;

/// Milliseconds of wall-clock time that must accumulate before the
/// simulation advances by one tick.
pub const FRAME_DURATION_MS: u32 = 75;

} // verus!
