//! Core logic of a minimal side-scrolling arcade game: a player sprite falls
//! under gravity, flaps to rise, and must pass through gaps in a sequence of
//! obstacles. The per-frame rendering and input polling live outside this
//! crate; here are the entities, the physics, the collision rules and the
//! game-mode state machine, each with a verified contract.

use vstd::prelude::*;

mod obstacle;
mod player;
mod state;

pub use obstacle::Obstacle;
pub use player::Player;
pub use state::{GameMode, Key, State};

verus! {

/// Width of the playing field in character cells.
pub const SCREEN_WIDTH: i32 = 80;

/// Height of the playing field in character cells; vertical positions grow
/// downward, so a player below this line has fallen off-screen.
pub const SCREEN_HEIGHT: i32 = 50;

/// Milliseconds of accumulated frame time per physics step.
pub const FRAME_DURATION: u32 = 75;

} // verus!
