//! The one test that every candidate passes before it is taken: the grid's
//! bounds, the two side edges, and the cells that are filled already.

use vstd::prelude::*;
use crate::grid::{occupied, Board, Cell, BOARD_CELLS, BOARD_WIDTH};
use crate::position::{
    column, in_grid, position_cells, theoretical_cells, Cells, Position, TheoreticalPosition,
};

verus! {

/// The cell lies in the leftmost column.
pub open spec fn is_leftmost(index: int) -> bool {
    column(index) == 0
}

/// The cell lies in the rightmost column.
pub open spec fn is_rightmost(index: int) -> bool {
    column(index + 1) == 0
}

/// One cell of a piece may go from `old` to `new`: `new` lies on the grid,
/// the step does not lead round a side edge into the column at the other
/// side, and the cell at `new` is empty.
pub open spec fn cell_move_legal(board: Seq<Cell>, old: int, new: int) -> bool {
    &&& in_grid(new)
    &&& !(is_rightmost(old) && is_leftmost(new))
    &&& !(is_leftmost(old) && is_rightmost(new))
    &&& !occupied(board, new)
}

/// Each of the four cells may go from its old place to its new one.
pub open spec fn move_legal(board: Seq<Cell>, old: Cells, new: Cells) -> bool {
    &&& cell_move_legal(board, old.0, new.0)
    &&& cell_move_legal(board, old.1, new.1)
    &&& cell_move_legal(board, old.2, new.2)
    &&& cell_move_legal(board, old.3, new.3)
}

fn cell_move_is_legal(board: &Board, old: usize, new: i16) -> (legal: bool)
    requires
        board.wf(),
    ensures
        legal == cell_move_legal(board@, old as int, new as int),
{
    if new < 0 {
        return false;
    }
    let target: usize = new as usize;
    if target >= BOARD_CELLS {
        return false;
    }
    let last_column: usize = BOARD_WIDTH - 1;
    if old % BOARD_WIDTH == last_column && target % BOARD_WIDTH == 0 {
        return false;
    }
    if old % BOARD_WIDTH == 0 && target % BOARD_WIDTH == last_column {
        return false;
    }
    !board.is_occupied(target)
}

/// Whether the piece at `old_position` may take `new_position`. The cells
/// are paired in order: the first old cell with the first new one, and so on.
pub fn move_is_legal(
    board: &Board,
    old_position: &Position,
    new_position: &TheoreticalPosition,
) -> (legal: bool)
    requires
        board.wf(),
    ensures
        legal == move_legal(
            board@,
            position_cells(*old_position),
            theoretical_cells(*new_position),
        ),
{
    let (old_w, old_x, old_y, old_z) = *old_position;
    let (new_w, new_x, new_y, new_z) = *new_position;
    cell_move_is_legal(board, old_w, new_w) && cell_move_is_legal(board, old_x, new_x)
        && cell_move_is_legal(board, old_y, new_y) && cell_move_is_legal(board, old_z, new_z)
}

} // verus!
