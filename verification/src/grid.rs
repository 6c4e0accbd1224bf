//! The playing field: a fixed sheet of cells, each empty or filled with a
//! colour.

use vstd::prelude::*;
use vstd::string::*;

verus! {

/// Number of columns of the grid.
pub const BOARD_WIDTH: usize = 10;

/// Number of rows of the grid.
pub const BOARD_HEIGHT: usize = 24;

/// Number of cells of the grid.
pub const BOARD_CELLS: usize = 240;

/// The colour of a filled cell. Each of the seven shapes has its own.
#[derive(Clone, Copy, Debug, PartialEq, Eq, Hash)]
pub enum Color {
    Turquoise,
    Blue,
    Orange,
    Yellow,
    Green,
    Purple,
    Red,
}

impl Color {
    /// The text that a style sheet takes for this colour.
    pub open spec fn hex(self) -> Seq<char> {
        match self {
            Color::Turquoise => "#40e0d0"@,
            Color::Blue => "#4169e1"@,
            Color::Orange => "#ffa500"@,
            Color::Yellow => "#ffff00"@,
            Color::Green => " #00ff00"@,
            Color::Purple => "#800080"@,
            Color::Red => "#ff0000"@,
        }
    }

    /// Writes the colour out as the text that a style sheet takes.
    pub fn to_hex(&self) -> (text: String)
        ensures
            text@ == self.hex(),
    {
        match self {
            Color::Turquoise => String::from_str("#40e0d0"),
            Color::Blue => String::from_str("#4169e1"),
            Color::Orange => String::from_str("#ffa500"),
            Color::Yellow => String::from_str("#ffff00"),
            Color::Green => String::from_str(" #00ff00"),
            Color::Purple => String::from_str("#800080"),
            Color::Red => String::from_str("#ff0000"),
        }
    }
}

/// One cell of the grid: empty, or filled with a colour.
#[derive(Clone, Copy, Debug, PartialEq, Eq)]
pub struct Cell {
    pub color: Option<Color>,
}

/// Why the grid did not answer.
#[derive(Clone, Copy, Debug, PartialEq, Eq)]
pub enum GridError {
    /// The index names no cell of the grid.
    OutOfBounds,
}

/// The cell `index` exists in `cells` and is filled.
pub open spec fn occupied(cells: Seq<Cell>, index: int) -> bool {
    0 <= index < cells.len() && cells[index].color is Some
}

/// The cells are those of a grid of full size, and every one is empty.
pub open spec fn all_empty(cells: Seq<Cell>) -> bool {
    &&& cells.len() == BOARD_CELLS
    &&& forall|index: int| 0 <= index < BOARD_CELLS ==> (#[trigger] cells[index]).color is None
}

/// The text that a style sheet takes for a cell.
pub open spec fn cell_text(cell: Cell) -> Seq<char> {
    match cell.color {
        Some(color) => color.hex(),
        None => "white"@,
    }
}

/// The grid, row after row from the top: the cell in row `r` and column `c`
/// has the index `r * 10 + c`.
#[derive(Debug, PartialEq, Eq)]
pub struct Board {
    cells: Vec<Cell>,
}

impl Clone for Board {
    fn clone(&self) -> (copy: Board)
        ensures
            copy@ == self@,
    {
        Board { cells: self.cells.clone() }
    }
}

impl View for Board {
    type V = Seq<Cell>;

    closed spec fn view(&self) -> Seq<Cell> {
        self.cells@
    }
}

impl Board {
    /// The grid has its full size.
    pub open spec fn wf(&self) -> bool {
        self@.len() == BOARD_CELLS
    }

    /// The grid that holds the given cells, if there are as many as the
    /// grid has.
    pub fn from_cells(cells: Vec<Cell>) -> (board: Option<Board>)
        ensures
            board is Some <==> cells@.len() == BOARD_CELLS,
            board matches Some(b) ==> b.wf() && b@ == cells@,
    {
        if cells.len() == BOARD_CELLS {
            Some(Board { cells })
        } else {
            None
        }
    }

    /// The cells of the grid, in the order of their indices.
    pub fn cells(&self) -> (cells: &Vec<Cell>)
        ensures
            cells@ == self@,
    {
        &self.cells
    }

    /// The cell at `index`.
    pub fn cell_at(&self, index: usize) -> (cell: Result<Cell, GridError>)
        requires
            self.wf(),
        ensures
            index < BOARD_CELLS ==> cell == Ok::<Cell, GridError>(self@[index as int]),
            index >= BOARD_CELLS ==> cell == Err::<Cell, GridError>(GridError::OutOfBounds),
    {
        if index < BOARD_CELLS {
            Ok(self.cells[index])
        } else {
            Err(GridError::OutOfBounds)
        }
    }

    /// Whether `index` names a cell of the grid that is filled.
    pub fn is_occupied(&self, index: usize) -> (filled: bool)
        requires
            self.wf(),
        ensures
            filled == occupied(self@, index as int),
    {
        index < BOARD_CELLS && self.cells[index].color.is_some()
    }

    /// Fills the cell at `index` with `color`. No other cell changes, and
    /// nothing ever empties a cell again.
    pub fn set_occupied(&mut self, index: usize, color: Color)
        requires
            old(self).wf(),
            index < BOARD_CELLS,
        ensures
            final(self).wf(),
            final(self)@ == old(self)@.update(index as int, Cell { color: Some(color) }),
    {
        self.cells[index] = Cell { color: Some(color) };
    }
}

/// The grid at the start of a game: every cell empty.
pub fn init_board() -> (board: Board)
    ensures
        board.wf(),
        all_empty(board@),
{
    let mut cells: Vec<Cell> = Vec::new();
    while cells.len() < BOARD_CELLS
        invariant
            cells@.len() <= BOARD_CELLS,
            forall|index: int| 0 <= index < cells@.len() ==> (#[trigger] cells@[index]).color is None,
        decreases BOARD_CELLS - cells@.len(),
    {
        cells.push(Cell { color: None });
    }
    Board { cells }
}

/// The text that a style sheet takes for a cell: the colour of a filled
/// cell, and white for an empty one.
pub fn cell_color(cell: &Cell) -> (text: String)
    ensures
        text@ == cell_text(*cell),
{
    match &cell.color {
        Some(color) => color.to_hex(),
        None => String::from_str("white"),
    }
}

} // verus!
