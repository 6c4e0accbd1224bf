//! The falling piece: a colour, which stands for one of the seven shapes,
//! and the four cells that the piece covers.

use vstd::prelude::*;
use crate::grid::{Color, BOARD_CELLS};
use crate::position::{covers, on_grid, position_cells, Cells, Position};

verus! {

/// The falling piece. Its four cells always lie on the grid.
#[derive(Clone, Copy, Debug, PartialEq, Eq)]
pub struct Piece {
    color: Color,
    position: Position,
}

/// What a piece is to a contract: its colour and its four cells.
pub struct PieceView {
    pub color: Color,
    pub cells: Cells,
}

impl View for Piece {
    type V = PieceView;

    closed spec fn view(&self) -> PieceView {
        PieceView { color: self.color, cells: position_cells(self.position) }
    }
}

/// The spawn table: the piece that enters the grid for a draw. The draws
/// 0 to 5 have a shape each; every other draw gives the bar.
pub open spec fn spawn(draw: int) -> PieceView {
    if draw == 0 {
        PieceView { color: Color::Yellow, cells: (4, 5, 14, 15) }
    } else if draw == 1 {
        PieceView { color: Color::Green, cells: (14, 15, 5, 6) }
    } else if draw == 2 {
        PieceView { color: Color::Red, cells: (4, 5, 15, 16) }
    } else if draw == 3 {
        PieceView { color: Color::Purple, cells: (5, 14, 15, 16) }
    } else if draw == 4 {
        PieceView { color: Color::Orange, cells: (14, 15, 16, 6) }
    } else if draw == 5 {
        PieceView { color: Color::Blue, cells: (4, 14, 15, 16) }
    } else {
        PieceView { color: Color::Turquoise, cells: (4, 14, 24, 34) }
    }
}

impl Piece {
    /// The cells of the piece lie on the grid.
    pub open spec fn wf(&self) -> bool {
        on_grid(self@.cells)
    }

    /// The piece that enters the grid for `draw`. The caller draws the
    /// number; for a fair game it is uniform over 0 to 6.
    pub fn new(draw: usize) -> (piece: Piece)
        ensures
            piece.wf(),
            piece@ == spawn(draw as int),
    {
        match draw {
            0 => Piece { color: Color::Yellow, position: (4, 5, 14, 15) },
            1 => Piece { color: Color::Green, position: (14, 15, 5, 6) },
            2 => Piece { color: Color::Red, position: (4, 5, 15, 16) },
            3 => Piece { color: Color::Purple, position: (5, 14, 15, 16) },
            4 => Piece { color: Color::Orange, position: (14, 15, 16, 6) },
            5 => Piece { color: Color::Blue, position: (4, 14, 15, 16) },
            _ => Piece { color: Color::Turquoise, position: (4, 14, 24, 34) },
        }
    }

    /// A piece of the given colour at the given position, if the position
    /// lies on the grid.
    pub fn from_parts(color: Color, position: Position) -> (piece: Option<Piece>)
        ensures
            piece is Some <==> on_grid(position_cells(position)),
            piece matches Some(p) ==> p.wf() && p@ == (PieceView {
                color,
                cells: position_cells(position),
            }),
    {
        let (w, x, y, z) = position;
        if w < BOARD_CELLS && x < BOARD_CELLS && y < BOARD_CELLS && z < BOARD_CELLS {
            Some(Piece { color, position })
        } else {
            None
        }
    }

    /// Puts the piece at `position` and keeps its colour.
    pub(crate) fn move_to(&mut self, position: Position)
        requires
            on_grid(position_cells(position)),
        ensures
            final(self).wf(),
            final(self)@ == (PieceView {
                color: old(self)@.color,
                cells: position_cells(position),
            }),
    {
        self.position = position;
    }

    /// The colour of the piece, which also tells its shape.
    pub fn color(&self) -> (color: Color)
        ensures
            color == self@.color,
    {
        self.color
    }

    /// The four cells that the piece covers.
    pub fn position(&self) -> (position: Position)
        ensures
            position_cells(position) == self@.cells,
    {
        self.position
    }

    /// Whether the piece covers the cell `index`.
    pub fn occupies_cell(&self, index: usize) -> (covered: bool)
        ensures
            covered == covers(self@.cells, index as int),
    {
        let (w, x, z, y) = self.position;
        index == w || index == x || index == z || index == y
    }
}

/// Every piece of the spawn table lies on the grid.
pub proof fn lemma_spawn_on_grid(draw: int)
    ensures
        on_grid(spawn(draw).cells),
{
}

} // verus!
