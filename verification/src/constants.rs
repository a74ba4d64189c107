//! Compile-time configuration of the game, and the overall game state.
use vstd::prelude::*;

verus! {

/// Largest frame the game will draw into, in terminal cells.
pub const MAX_FRAME_WIDTH: u16 = 100;

/// Largest frame height the game will draw into, in terminal cells.
pub const MAX_FRAME_HEIGHT: u16 = 21;

/// Rows between the bottom of the frame and the ground line.
pub const GROUND_SHIFT: u16 = 3;

/// A new obstacle spawns every `SPAWN_CADENCE` scroll ticks.
pub const SPAWN_CADENCE: usize = 53;

/// Overall state of one round.  `Running` is the only state in which
/// ticks mutate the simulation; a collision moves it to `GameOver`,
/// and the quit key moves it to `Quit` from any state.
#[derive(Debug, Clone, Copy, PartialEq, Eq, Structural)]
pub enum GameState {
    Running,
    GameOver,
    Quit,
}

} // verus!
