//! Rotation of a piece by table lookup.
//!
//! A position is first moved to the corner of its own bounding box. The table
//! gives, for each shape known there, the shape that follows it and an
//! amount by which some shapes move besides. A shape that the table does not
//! list is left as it is.

use vstd::prelude::*;
use crate::grid::BOARD_WIDTH;
use crate::position::{
    column, on_grid, position_cells, position_to_theoritical, row, shifted, theoretical_cells,
    Cells, Position, TheoreticalPosition,
};

verus! {

/// The least of four integers.
pub open spec fn min4(a: int, b: int, c: int, d: int) -> int {
    let ab = if a <= b { a } else { b };
    let cd = if c <= d { c } else { d };
    if ab <= cd { ab } else { cd }
}

/// The index of the top left corner of the bounding box of the cells.
pub open spec fn origin(cells: Cells) -> int {
    min4(column(cells.0), column(cells.1), column(cells.2), column(cells.3)) + BOARD_WIDTH * min4(
        row(cells.0),
        row(cells.1),
        row(cells.2),
        row(cells.3),
    )
}

/// The cells as seen from the corner of their bounding box.
pub open spec fn normalized(cells: Cells) -> Cells {
    shifted(cells, -origin(cells))
}

/// The rotation table. For a shape that it lists it gives the shape that
/// follows, and the amount by which the piece moves besides.
pub open spec fn listed_entry(shape: Cells) -> Option<(Cells, int)> {
    if shape == (0int, 1int, 10int, 11int) {
        Some(((0int, 1int, 10int, 11int), 0int))
    } else if shape == (0int, 1int, 11int, 12int) {
        Some(((1int, 10int, 11int, 20int), 0int))
    } else if shape == (1int, 10int, 11int, 20int) {
        Some(((0int, 1int, 11int, 12int), 0int))
    } else if shape == (10int, 11int, 1int, 2int) {
        Some(((0int, 10int, 11int, 21int), 0int))
    } else if shape == (0int, 10int, 11int, 21int) {
        Some(((10int, 11int, 1int, 2int), 0int))
    } else if shape == (1int, 10int, 11int, 12int) {
        Some(((1int, 11int, 12int, 21int), 0int))
    } else if shape == (0int, 10int, 11int, 20int) {
        Some(((9int, 10int, 11int, 20int), 0int))
    } else if shape == (0int, 1int, 2int, 11int) {
        Some(((1int, 10int, 11int, 21int), -10int))
    } else if shape == (1int, 10int, 11int, 21int) {
        Some(((1int, 10int, 11int, 12int), 0int))
    } else if shape == (10int, 11int, 12int, 2int) {
        Some(((1int, 11int, 21int, 22int), 0int))
    } else if shape == (0int, 10int, 20int, 21int) {
        Some(((10int, 11int, 12int, 20int), -1int))
    } else if shape == (0int, 1int, 2int, 10int) {
        Some(((1int, 2int, 12int, 22int), -10int))
    } else if shape == (0int, 1int, 11int, 21int) {
        Some(((10int, 11int, 12int, 2int), -1int))
    } else if shape == (0int, 10int, 11int, 12int) {
        Some(((1int, 2int, 11int, 21int), 0int))
    } else if shape == (0int, 1int, 10int, 20int) {
        Some(((0int, 1int, 2int, 12int), -1int))
    } else if shape == (0int, 1int, 2int, 12int) {
        Some(((2int, 12int, 21int, 22int), 0int))
    } else if shape == (1int, 11int, 20int, 21int) {
        Some(((0int, 10int, 11int, 12int), -1int))
    } else if shape == (0int, 10int, 20int, 30int) {
        Some(((0int, 1int, 2int, 3int), 9int))
    } else if shape == (0int, 1int, 2int, 3int) {
        Some(((0int, 10int, 20int, 30int), -9int))
    } else {
        None
    }
}

/// The table lists the shape.
pub open spec fn is_listed(shape: Cells) -> bool {
    listed_entry(shape) is Some
}

/// What a rotation makes of a shape: the entry of the table, and the shape
/// itself, unmoved, where the table lists none.
pub open spec fn rotation_entry(shape: Cells) -> (Cells, int) {
    match listed_entry(shape) {
        Some(entry) => entry,
        None => (shape, 0int),
    }
}

/// The candidate that a rotation proposes for the cells.
pub open spec fn rotated(cells: Cells) -> Cells {
    let entry = rotation_entry(normalized(cells));
    shifted(entry.0, origin(cells) + entry.1)
}

fn least(a: i16, b: i16, c: i16, d: i16) -> (m: i16)
    ensures
        m == min4(a as int, b as int, c as int, d as int),
{
    let ab: i16 = if a <= b { a } else { b };
    let cd: i16 = if c <= d { c } else { d };
    if ab <= cd { ab } else { cd }
}

fn lookup(shape: TheoreticalPosition) -> (entry: (TheoreticalPosition, i16))
    ensures
        (theoretical_cells(entry.0), entry.1 as int) == rotation_entry(theoretical_cells(shape)),
{
    match shape {
        (0, 1, 10, 11) => ((0, 1, 10, 11), 0),
        (0, 1, 11, 12) => ((1, 10, 11, 20), 0),
        (1, 10, 11, 20) => ((0, 1, 11, 12), 0),
        (10, 11, 1, 2) => ((0, 10, 11, 21), 0),
        (0, 10, 11, 21) => ((10, 11, 1, 2), 0),
        (1, 10, 11, 12) => ((1, 11, 12, 21), 0),
        (0, 10, 11, 20) => ((9, 10, 11, 20), 0),
        (0, 1, 2, 11) => ((1, 10, 11, 21), -10),
        (1, 10, 11, 21) => ((1, 10, 11, 12), 0),
        (10, 11, 12, 2) => ((1, 11, 21, 22), 0),
        (0, 10, 20, 21) => ((10, 11, 12, 20), -1),
        (0, 1, 2, 10) => ((1, 2, 12, 22), -10),
        (0, 1, 11, 21) => ((10, 11, 12, 2), -1),
        (0, 10, 11, 12) => ((1, 2, 11, 21), 0),
        (0, 1, 10, 20) => ((0, 1, 2, 12), -1),
        (0, 1, 2, 12) => ((2, 12, 21, 22), 0),
        (1, 11, 20, 21) => ((0, 10, 11, 12), -1),
        (0, 10, 20, 30) => ((0, 1, 2, 3), 9),
        (0, 1, 2, 3) => ((0, 10, 20, 30), -9),
        other => (other, 0),
    }
}

/// Computes the candidate of a rotation. Nothing is checked here: the
/// candidate may leave the grid or run into filled cells.
pub fn calculate_rotation(piece_position: &Position) -> (candidate: TheoreticalPosition)
    requires
        on_grid(position_cells(*piece_position)),
    ensures
        theoretical_cells(candidate) == rotated(position_cells(*piece_position)),
{
    let (w, x, y, z) = position_to_theoritical(*piece_position);
    let width: i16 = BOARD_WIDTH as i16;
    let horizontal_adjust: i16 = least(w % width, x % width, y % width, z % width);
    let vertical_adjust: i16 = least(w / width, x / width, y / width, z / width);
    let corner: i16 = horizontal_adjust + vertical_adjust * width;
    let (shape, additional_adjust) = lookup((w - corner, x - corner, y - corner, z - corner));
    let back: i16 = corner + additional_adjust;
    (shape.0 + back, shape.1 + back, shape.2 + back, shape.3 + back)
}

/// A piece whose shape the table does not list stays where it is.
pub proof fn lemma_unlisted_shape_stays(cells: Cells)
    requires
        !is_listed(normalized(cells)),
    ensures
        rotated(cells) == cells,
{
}

/// The listed shape that a rotation of `shape` arrives at, seen from its own
/// corner.
spec fn follower(shape: Cells) -> Cells {
    if shape == (0int, 1int, 11int, 12int) {
        (1int, 10int, 11int, 20int)
    } else if shape == (1int, 10int, 11int, 20int) {
        (0int, 1int, 11int, 12int)
    } else if shape == (10int, 11int, 1int, 2int) {
        (0int, 10int, 11int, 21int)
    } else if shape == (0int, 10int, 11int, 21int) {
        (10int, 11int, 1int, 2int)
    } else if shape == (1int, 10int, 11int, 12int) {
        (0int, 10int, 11int, 20int)
    } else if shape == (0int, 10int, 11int, 20int) {
        (0int, 1int, 2int, 11int)
    } else if shape == (0int, 1int, 2int, 11int) {
        (1int, 10int, 11int, 21int)
    } else if shape == (1int, 10int, 11int, 21int) {
        (1int, 10int, 11int, 12int)
    } else if shape == (10int, 11int, 12int, 2int) {
        (0int, 10int, 20int, 21int)
    } else if shape == (0int, 10int, 20int, 21int) {
        (0int, 1int, 2int, 10int)
    } else if shape == (0int, 1int, 2int, 10int) {
        (0int, 1int, 11int, 21int)
    } else if shape == (0int, 1int, 11int, 21int) {
        (10int, 11int, 12int, 2int)
    } else if shape == (0int, 10int, 11int, 12int) {
        (0int, 1int, 10int, 20int)
    } else if shape == (0int, 1int, 10int, 20int) {
        (0int, 1int, 2int, 12int)
    } else if shape == (0int, 1int, 2int, 12int) {
        (1int, 11int, 20int, 21int)
    } else if shape == (1int, 11int, 20int, 21int) {
        (0int, 10int, 11int, 12int)
    } else if shape == (0int, 10int, 20int, 30int) {
        (0int, 1int, 2int, 3int)
    } else if shape == (0int, 1int, 2int, 3int) {
        (0int, 10int, 20int, 30int)
    } else {
        shape
    }
}

/// The amount by which a rotation of `shape` moves the corner of the
/// bounding box.
spec fn drift(shape: Cells) -> int {
    if shape == (1int, 10int, 11int, 12int) {
        1
    } else if shape == (0int, 10int, 11int, 20int) {
        9
    } else if shape == (0int, 1int, 2int, 11int) {
        -10
    } else if shape == (10int, 11int, 12int, 2int) {
        1
    } else if shape == (0int, 10int, 20int, 21int) {
        9
    } else if shape == (0int, 1int, 2int, 10int) {
        -9
    } else if shape == (0int, 1int, 11int, 21int) {
        -1
    } else if shape == (0int, 10int, 11int, 12int) {
        1
    } else if shape == (0int, 1int, 10int, 20int) {
        -1
    } else if shape == (0int, 1int, 2int, 12int) {
        1
    } else if shape == (1int, 11int, 20int, 21int) {
        -1
    } else if shape == (0int, 10int, 20int, 30int) {
        9
    } else if shape == (0int, 1int, 2int, 3int) {
        -9
    } else {
        0
    }
}

/// The rotation of the listed shape `from`, placed with its corner at
/// `corner`.
spec fn placed_rotation(from: Cells, corner: int) -> Cells {
    shifted(rotation_entry(from).0, corner + rotation_entry(from).1)
}

/// Where a rotation of a listed shape gives a listed shape again, the table
/// fixes which one, and where its corner lies.
proof fn lemma_listed_step(from: Cells, corner: int, to: Cells, next_corner: int)
    requires
        is_listed(from),
        is_listed(to),
        placed_rotation(from, corner) == shifted(to, next_corner),
    ensures
        to == follower(from),
        next_corner == corner + drift(from),
{
}

/// Followed four times, a listed shape comes back, and its corner with it.
proof fn lemma_followers_close(shape: Cells)
    requires
        is_listed(shape),
    ensures
        follower(follower(follower(follower(shape)))) == shape,
        drift(shape) + drift(follower(shape)) + drift(follower(follower(shape))) + drift(
            follower(follower(follower(shape))),
        ) == 0,
{
}

/// The rotation of a listed shape is its follower, placed where the drift
/// takes the corner.
proof fn lemma_rotation_lands_on_follower(from: Cells, corner: int)
    requires
        is_listed(from),
    ensures
        placed_rotation(from, corner) == shifted(follower(from), corner + drift(from)),
{
}

/// Four rotations through listed shapes, each placed where the one before
/// left it, end where the first began.
proof fn lemma_listed_cycle(
    first: Cells,
    first_corner: int,
    second: Cells,
    second_corner: int,
    third: Cells,
    third_corner: int,
    fourth: Cells,
    fourth_corner: int,
)
    requires
        is_listed(first),
        is_listed(second),
        is_listed(third),
        is_listed(fourth),
        placed_rotation(first, first_corner) == shifted(second, second_corner),
        placed_rotation(second, second_corner) == shifted(third, third_corner),
        placed_rotation(third, third_corner) == shifted(fourth, fourth_corner),
    ensures
        placed_rotation(fourth, fourth_corner) == shifted(first, first_corner),
{
    lemma_listed_step(first, first_corner, second, second_corner);
    lemma_listed_step(second, second_corner, third, third_corner);
    lemma_listed_step(third, third_corner, fourth, fourth_corner);
    lemma_followers_close(first);
    let last = follower(fourth);
    let last_corner = fourth_corner + drift(fourth);
    assert(placed_rotation(fourth, fourth_corner) == shifted(last, last_corner)) by {
        lemma_rotation_lands_on_follower(fourth, fourth_corner);
    }
}

/// A rotation places the entry of the normalized shape at the corner of the
/// cells, and the cells are their normalized shape placed at that corner.
proof fn lemma_rotation_is_placed(cells: Cells)
    ensures
        rotated(cells) == placed_rotation(normalized(cells), origin(cells)),
        cells == shifted(normalized(cells), origin(cells)),
{
}

/// Four rotations bring a piece back to where it was, provided that each of
/// them meets a shape that the table lists.
pub proof fn lemma_four_rotations_restore(cells: Cells)
    requires
        is_listed(normalized(cells)),
        is_listed(normalized(rotated(cells))),
        is_listed(normalized(rotated(rotated(cells)))),
        is_listed(normalized(rotated(rotated(rotated(cells))))),
    ensures
        rotated(rotated(rotated(rotated(cells)))) == cells,
{
    let second = rotated(cells);
    let third = rotated(second);
    let fourth = rotated(third);
    lemma_rotation_is_placed(cells);
    lemma_rotation_is_placed(second);
    lemma_rotation_is_placed(third);
    lemma_rotation_is_placed(fourth);
    lemma_listed_cycle(
        normalized(cells),
        origin(cells),
        normalized(second),
        origin(second),
        normalized(third),
        origin(third),
        normalized(fourth),
        origin(fourth),
    );
}

} // verus!
