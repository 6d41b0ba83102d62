//! Simulation core of a falling-block puzzle: the playfield grid, the piece
//! catalog, tick-driven timers and the screen state machine that sequences a
//! round. Every function is verified against a mathematical model of the
//! data it works on; only the two calls into the random number generator
//! are taken on trust.

pub mod blocks;
pub mod field;
pub mod geometry;
pub mod grid;
pub mod input;
pub mod random;
pub mod rules;
pub mod tetromino;
pub mod time;
pub mod video;

use vstd::prelude::*;

verus! {

/// The integer type of coordinates, periods and scores.
pub type Number = i32;

/// Position of cell `(x, y)` in a row-major grid whose rows hold `row_width` cells.
pub open spec fn spec_index(x: int, y: int, row_width: int) -> int {
    x + y * row_width
}

/// Computes the row-major position of cell `(x, y)`.
pub fn index(x: usize, y: usize, row_width: usize) -> (i: usize)
    requires
        spec_index(x as int, y as int, row_width as int) <= usize::MAX,
    ensures
        i == spec_index(x as int, y as int, row_width as int),
{
    x + y * row_width
}

} // verus!
