//! Input handling and game-state machine of the testbed game.

pub mod input;
pub mod state;
