//! Positions: the four cell indices that a piece covers.
//!
//! A `Position` holds indices of the grid. A `TheoreticalPosition` is a
//! candidate that a transform has computed and nobody has checked yet, so
//! its indices may lie before the first cell or after the last one. Contracts
//! speak of both through `Cells`, four mathematical integers.

use vstd::prelude::*;
use crate::grid::BOARD_CELLS;
use crate::grid::BOARD_WIDTH;

verus! {

/// The indices of the four cells of a placed piece.
pub type Position = (usize, usize, usize, usize);

/// Four indices that a transform proposes. They may be off the grid.
pub type TheoreticalPosition = (i16, i16, i16, i16);

/// The model of a position, checked or not: four integers.
pub type Cells = (int, int, int, int);

/// The cells of a position.
pub open spec fn position_cells(position: Position) -> Cells {
    (position.0 as int, position.1 as int, position.2 as int, position.3 as int)
}

/// The cells of a candidate.
pub open spec fn theoretical_cells(candidate: TheoreticalPosition) -> Cells {
    (candidate.0 as int, candidate.1 as int, candidate.2 as int, candidate.3 as int)
}

/// The index names a cell of the grid.
pub open spec fn in_grid(index: int) -> bool {
    0 <= index < BOARD_CELLS
}

/// All four cells lie on the grid.
pub open spec fn on_grid(cells: Cells) -> bool {
    in_grid(cells.0) && in_grid(cells.1) && in_grid(cells.2) && in_grid(cells.3)
}

/// The column of a cell, counted from the left edge.
pub open spec fn column(index: int) -> int {
    index % (BOARD_WIDTH as int)
}

/// The row of a cell, counted from the top edge.
pub open spec fn row(index: int) -> int {
    index / (BOARD_WIDTH as int)
}

/// Every cell moved by the same amount.
pub open spec fn shifted(cells: Cells, by: int) -> Cells {
    (cells.0 + by, cells.1 + by, cells.2 + by, cells.3 + by)
}

/// One of the four cells is `index`.
pub open spec fn covers(cells: Cells, index: int) -> bool {
    index == cells.0 || index == cells.1 || index == cells.2 || index == cells.3
}

/// Every index fits the signed type of a candidate.
pub open spec fn fits_theoretical(cells: Cells) -> bool {
    cells.0 <= i16::MAX && cells.1 <= i16::MAX && cells.2 <= i16::MAX && cells.3 <= i16::MAX
}

/// No index is negative.
pub open spec fn non_negative(cells: Cells) -> bool {
    0 <= cells.0 && 0 <= cells.1 && 0 <= cells.2 && 0 <= cells.3
}

/// Reads a position as a candidate, index by index.
pub fn position_to_theoritical(position: Position) -> (candidate: TheoreticalPosition)
    requires
        fits_theoretical(position_cells(position)),
    ensures
        theoretical_cells(candidate) == position_cells(position),
{
    let (w, x, y, z) = position;
    (w as i16, x as i16, y as i16, z as i16)
}

/// Reads a candidate without negative indices as a position, index by index.
pub fn position_from_theoritical(candidate: TheoreticalPosition) -> (position: Position)
    requires
        non_negative(theoretical_cells(candidate)),
    ensures
        position_cells(position) == theoretical_cells(candidate),
{
    let (w, x, y, z) = candidate;
    (w as usize, x as usize, y as usize, z as usize)
}

} // verus!
