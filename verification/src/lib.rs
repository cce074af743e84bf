//! The rules of a small grid platformer, as a verified library.
//!
//! Everything here is integer or boolean logic: the ASCII level format, the scoreboard,
//! the run-clock start rule, the HUD text and the draw layers. The floating-point
//! simulation (gravity, collision, easing) lives with the engine glue in `app/`.
use vstd::prelude::*;

pub mod gameplay;
pub mod level;
pub mod player;
pub mod render;
pub mod text;
pub mod ui;

verus! {

/// The size of one level tile, in world units.
pub const TILE: u64 = 32;

/// The two phases of a run.
#[derive(Debug, Clone, Copy, PartialEq, Eq, Structural)]
pub enum GameState {
    /// Normal play: the simulation runs and input is read.
    Playing,
    /// The player touched the flag. The simulation is frozen and an overlay is shown.
    Won,
}

impl Default for GameState {
    fn default() -> (state: Self)
        ensures
            state == GameState::Playing,
    {
        GameState::Playing
    }
}

impl GameState {
    /// Whether the per-frame gameplay chain (clock, input, physics, pickups, hazards,
    /// goal) runs in this state. It runs only while playing, which is what freezes the
    /// run clock on the win screen.
    pub fn gameplay_runs(self) -> (runs: bool)
        ensures
            runs == (self == GameState::Playing),
    {
        match self {
            GameState::Playing => true,
            GameState::Won => false,
        }
    }

    /// The state after the goal check of one frame: touching the flag wins, and
    /// otherwise the state stays as it was.
    pub fn after_goal_check(self, touched_goal: bool) -> (next: GameState)
        ensures
            next == (if touched_goal { GameState::Won } else { self }),
    {
        if touched_goal {
            GameState::Won
        } else {
            self
        }
    }
}

} // verus!
