//! A single-player, turn-based board-race game engine.
//!
//! The player advances along a linear course of squares by rolling two
//! six-sided dice each turn. Landing on an obstacle square pushes the player
//! backward by its penalty, clamped at zero; advancing past the final square
//! wins the game. This crate holds the course model, the turn-resolution
//! rules, and the board rendering; the terminal loop around them lives in a
//! separate binary.

use vstd::prelude::*;

pub mod board;
pub mod course;
pub mod dice;
pub mod turn;

verus! {

/// Default length of the course.
pub const COURSE_LEN: usize = 32;

} // verus!
