//! Attempts: a candidate is computed, tested, and taken or dropped as a
//! whole.

use vstd::prelude::*;
use crate::collision::{is_leftmost, is_rightmost, move_is_legal, move_legal};
use crate::grid::{occupied, Board, Cell};
use crate::position::{
    column, in_grid, on_grid, position_cells, position_from_theoritical, row, shifted, Cells,
    Position,
};
use crate::rotation::{calculate_rotation, normalized, origin, rotated};
use crate::translation::{calculate_new_position, Direction};

verus! {

/// What becomes of a piece at `old` for which `candidate` is proposed: the
/// candidate if it is legal, and `old` otherwise.
pub open spec fn accepted(board: Seq<Cell>, old: Cells, candidate: Cells) -> Cells {
    if move_legal(board, old, candidate) {
        candidate
    } else {
        old
    }
}

/// Where a piece at `cells` is after an attempt to move it.
pub open spec fn moved(board: Seq<Cell>, cells: Cells, direction: Direction) -> Cells {
    accepted(board, cells, shifted(cells, direction.delta()))
}

/// Where a piece at `cells` is after an attempt to rotate it.
pub open spec fn turned(board: Seq<Cell>, cells: Cells) -> Cells {
    accepted(board, cells, rotated(cells))
}

/// Moves the piece one step in `direction` if the step is legal, and leaves
/// it where it is otherwise.
pub fn attempt_move(board: &Board, piece_position: &Position, direction: Direction) -> (position:
    Position)
    requires
        board.wf(),
        on_grid(position_cells(*piece_position)),
    ensures
        position_cells(position) == moved(board@, position_cells(*piece_position), direction),
        on_grid(position_cells(position)),
{
    let new_position = calculate_new_position(piece_position, direction);
    if move_is_legal(board, piece_position, &new_position) {
        position_from_theoritical(new_position)
    } else {
        *piece_position
    }
}

/// Rotates the piece if the rotated piece is legal, and leaves it as it is
/// otherwise.
pub fn attempt_rotate(board: &Board, piece_position: &Position) -> (position: Position)
    requires
        board.wf(),
        on_grid(position_cells(*piece_position)),
    ensures
        position_cells(position) == turned(board@, position_cells(*piece_position)),
        on_grid(position_cells(position)),
{
    let new_position = calculate_rotation(piece_position);
    if move_is_legal(board, piece_position, &new_position) {
        position_from_theoritical(new_position)
    } else {
        *piece_position
    }
}

/// The step of one cell from `old` to `new` fails one of the four tests:
/// `new` is off the grid, the step leads round the right edge or round the
/// left edge, or the cell at `new` is filled.
pub open spec fn cell_move_fails(board: Seq<Cell>, old: int, new: int) -> bool {
    ||| !in_grid(new)
    ||| (is_rightmost(old) && is_leftmost(new))
    ||| (is_leftmost(old) && is_rightmost(new))
    ||| occupied(board, new)
}

/// A move leaves the piece one whole step further or where it was: never
/// some cells moved and others not.
pub proof fn lemma_move_is_whole_or_none(board: Seq<Cell>, cells: Cells, direction: Direction)
    ensures
        moved(board, cells, direction) == shifted(cells, direction.delta()) || moved(
            board,
            cells,
            direction,
        ) == cells,
{
}

/// A piece that an accepted candidate has put somewhere lies on the grid.
pub proof fn lemma_accepted_stays_on_grid(board: Seq<Cell>, old: Cells, candidate: Cells)
    requires
        on_grid(old),
    ensures
        on_grid(accepted(board, old, candidate)),
{
}

/// A candidate of which one cell fails one test is dropped: the piece stays
/// where it was.
pub proof fn lemma_failed_candidate_is_dropped(board: Seq<Cell>, old: Cells, candidate: Cells)
    requires
        cell_move_fails(board, old.0, candidate.0) || cell_move_fails(board, old.1, candidate.1)
            || cell_move_fails(board, old.2, candidate.2) || cell_move_fails(
            board,
            old.3,
            candidate.3,
        ),
    ensures
        accepted(board, old, candidate) == old,
{
}

/// A candidate is dropped only if one of its cells fails a test.
pub proof fn lemma_dropped_candidate_failed(board: Seq<Cell>, old: Cells, candidate: Cells)
    requires
        accepted(board, old, candidate) != candidate,
    ensures
        cell_move_fails(board, old.0, candidate.0) || cell_move_fails(board, old.1, candidate.1)
            || cell_move_fails(board, old.2, candidate.2) || cell_move_fails(
            board,
            old.3,
            candidate.3,
        ),
{
}

/// The column and the row of a cell after one step that does not lead round
/// a side edge.
proof fn lemma_cell_step(index: int, direction: Direction)
    requires
        direction == Direction::Left ==> !is_leftmost(index),
        direction == Direction::Right ==> !is_rightmost(index),
    ensures
        column(index + direction.delta()) == column(index) + match direction {
            Direction::Left => -1int,
            Direction::Right => 1int,
            _ => 0int,
        },
        row(index + direction.delta()) == row(index) + match direction {
            Direction::Up => -1int,
            Direction::Down => 1int,
            _ => 0int,
        },
{
}

/// A move keeps the shape of the piece: seen from the corner of its bounding
/// box, the piece is after the attempt what it was before.
pub proof fn lemma_move_keeps_shape(board: Seq<Cell>, cells: Cells, direction: Direction)
    ensures
        normalized(moved(board, cells, direction)) == normalized(cells),
{
    let after = moved(board, cells, direction);
    if after != cells {
        lemma_cell_step(cells.0, direction);
        lemma_cell_step(cells.1, direction);
        lemma_cell_step(cells.2, direction);
        lemma_cell_step(cells.3, direction);
        assert(origin(after) == origin(cells) + direction.delta());
    }
}

/// A piece with a cell in the rightmost column does not move to the right.
pub proof fn lemma_right_edge_stops_right(board: Seq<Cell>, cells: Cells)
    requires
        is_rightmost(cells.0) || is_rightmost(cells.1) || is_rightmost(cells.2) || is_rightmost(
            cells.3,
        ),
    ensures
        moved(board, cells, Direction::Right) == cells,
{
}

/// A piece with a cell in the leftmost column does not move to the left.
pub proof fn lemma_left_edge_stops_left(board: Seq<Cell>, cells: Cells)
    requires
        is_leftmost(cells.0) || is_leftmost(cells.1) || is_leftmost(cells.2) || is_leftmost(
            cells.3,
        ),
    ensures
        moved(board, cells, Direction::Left) == cells,
{
}

} // verus!
