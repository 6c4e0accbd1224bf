//! Moving a piece by one cell in one of four directions.

use vstd::prelude::*;
use crate::grid::BOARD_WIDTH;
use crate::position::{
    on_grid, position_cells, position_to_theoritical, shifted, theoretical_cells, Position,
    TheoreticalPosition,
};

verus! {

/// The four directions in which a piece moves.
#[derive(Clone, Copy, Debug, PartialEq, Eq)]
pub enum Direction {
    Up,
    Down,
    Left,
    Right,
}

impl Direction {
    /// The amount by which a step in this direction changes an index: one
    /// row up or down, or one cell to the left or right.
    pub open spec fn delta(self) -> int {
        match self {
            Direction::Down => BOARD_WIDTH as int,
            Direction::Up => -(BOARD_WIDTH as int),
            Direction::Left => -1,
            Direction::Right => 1,
        }
    }
}

/// Computes the candidate of a step in `direction`. Nothing is checked here:
/// the candidate may leave the grid or run into filled cells.
pub fn calculate_new_position(piece_position: &Position, direction: Direction) -> (candidate:
    TheoreticalPosition)
    requires
        on_grid(position_cells(*piece_position)),
    ensures
        theoretical_cells(candidate) == shifted(
            position_cells(*piece_position),
            direction.delta(),
        ),
{
    let (w, x, y, z) = position_to_theoritical(*piece_position);
    let width: i16 = BOARD_WIDTH as i16;
    match direction {
        Direction::Down => (w + width, x + width, y + width, z + width),
        Direction::Up => (w - width, x - width, y - width, z - width),
        Direction::Left => (w - 1, x - 1, y - 1, z - 1),
        Direction::Right => (w + 1, x + 1, y + 1, z + 1),
    }
}

} // verus!
