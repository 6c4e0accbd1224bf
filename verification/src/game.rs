//! The game: one grid, one falling piece, and the commands that change them.
//!
//! A move or a rotation is an attempt: it changes the piece only if the
//! collision test passes. A lock writes the piece's cells into the grid,
//! untested, and spawns the next piece. Nothing ever empties a cell.

use vstd::prelude::*;
use vstd::string::*;
use crate::collision::{is_leftmost, is_rightmost};
use crate::grid::{
    all_empty, cell_color, cell_text, init_board, occupied, Board, Cell, Color, BOARD_CELLS,
};
use crate::moves::{attempt_move, attempt_rotate, cell_move_fails, moved, turned};
use crate::piece::{spawn, Piece, PieceView};
use crate::position::{covers, on_grid, shifted, Cells};
use crate::rotation::{origin, rotated, rotation_entry};
use crate::translation::Direction;

verus! {

/// A command to the game.
#[derive(Clone, Copy, Debug, PartialEq, Eq)]
pub enum GameEvent {
    MoveCurrentPiece(Direction),
    RotateCurrentPiece,
    PlaceCurrentPiece,
    NoOP,
}

/// The command that a key stands for. Six keys of one character have one;
/// any other text has none.
pub open spec fn decoded(key: Seq<char>) -> GameEvent {
    if key.len() != 1 {
        GameEvent::NoOP
    } else if key[0] == 'a' {
        GameEvent::MoveCurrentPiece(Direction::Left)
    } else if key[0] == 's' {
        GameEvent::MoveCurrentPiece(Direction::Down)
    } else if key[0] == 'd' {
        GameEvent::MoveCurrentPiece(Direction::Right)
    } else if key[0] == 'w' {
        GameEvent::MoveCurrentPiece(Direction::Up)
    } else if key[0] == 'p' {
        GameEvent::PlaceCurrentPiece
    } else if key[0] == ' ' {
        GameEvent::RotateCurrentPiece
    } else {
        GameEvent::NoOP
    }
}

/// Reads the name of a pressed key as a command.
pub fn decode_event(key: &str) -> (event: GameEvent)
    ensures
        event == decoded(key@),
{
    if key.unicode_len() != 1 {
        return GameEvent::NoOP;
    }
    let pressed = key.get_char(0);
    if pressed == 'a' {
        GameEvent::MoveCurrentPiece(Direction::Left)
    } else if pressed == 's' {
        GameEvent::MoveCurrentPiece(Direction::Down)
    } else if pressed == 'd' {
        GameEvent::MoveCurrentPiece(Direction::Right)
    } else if pressed == 'w' {
        GameEvent::MoveCurrentPiece(Direction::Up)
    } else if pressed == 'p' {
        GameEvent::PlaceCurrentPiece
    } else if pressed == ' ' {
        GameEvent::RotateCurrentPiece
    } else {
        GameEvent::NoOP
    }
}

/// The grid after a piece of `color` at `cells` has been locked into it.
pub open spec fn locked(board: Seq<Cell>, cells: Cells, color: Color) -> Seq<Cell> {
    Seq::new(
        board.len(),
        |index: int|
            if covers(cells, index) {
                Cell { color: Some(color) }
            } else {
                board[index]
            },
    )
}

/// The text that a style sheet takes for the cell `index`: the colour of
/// the falling piece where it covers the cell, and the cell's own otherwise.
pub open spec fn displayed(index: int, cell: Cell, piece: PieceView) -> Seq<char> {
    if covers(piece.cells, index) {
        piece.color.hex()
    } else {
        cell_text(cell)
    }
}

/// The colour in which the cell `index` is drawn.
pub fn displayed_color(index: usize, cell: &Cell, current_piece: &Piece) -> (text: String)
    ensures
        text@ == displayed(index as int, *cell, current_piece@),
{
    if current_piece.occupies_cell(index) {
        current_piece.color().to_hex()
    } else {
        cell_color(cell)
    }
}

/// The whole game: the grid and the falling piece.
#[derive(Debug, PartialEq, Eq)]
pub struct State {
    board: Board,
    current_piece: Piece,
}

impl Clone for State {
    fn clone(&self) -> (copy: State)
        ensures
            copy@ == self@,
    {
        State { board: self.board.clone(), current_piece: self.current_piece }
    }
}

/// What a game is to a contract: the cells of the grid and the falling
/// piece.
pub struct StateView {
    pub board: Seq<Cell>,
    pub piece: PieceView,
}

impl View for State {
    type V = StateView;

    closed spec fn view(&self) -> StateView {
        StateView { board: self.board@, piece: self.current_piece@ }
    }
}

/// The grid has its full size and the piece lies on it.
pub open spec fn valid(state: StateView) -> bool {
    state.board.len() == BOARD_CELLS && on_grid(state.piece.cells)
}

/// The position that a command proposes for a piece at `cells`. A lock and
/// an empty command propose none: for them this is `cells`.
pub open spec fn proposed(cells: Cells, event: GameEvent) -> Cells {
    match event {
        GameEvent::MoveCurrentPiece(direction) => shifted(cells, direction.delta()),
        GameEvent::RotateCurrentPiece => rotated(cells),
        GameEvent::PlaceCurrentPiece => cells,
        GameEvent::NoOP => cells,
    }
}

/// The game after one command. `draw` chooses the piece that a lock spawns;
/// the other commands do not look at it.
pub open spec fn step(state: StateView, event: GameEvent, draw: int) -> StateView {
    match event {
        GameEvent::MoveCurrentPiece(direction) => StateView {
            board: state.board,
            piece: PieceView {
                color: state.piece.color,
                cells: moved(state.board, state.piece.cells, direction),
            },
        },
        GameEvent::RotateCurrentPiece => StateView {
            board: state.board,
            piece: PieceView {
                color: state.piece.color,
                cells: turned(state.board, state.piece.cells),
            },
        },
        GameEvent::PlaceCurrentPiece => StateView {
            board: locked(state.board, state.piece.cells, state.piece.color),
            piece: spawn(draw),
        },
        GameEvent::NoOP => state,
    }
}

/// The game after a run of commands, each with its draw, first to last.
pub open spec fn run(state: StateView, commands: Seq<(GameEvent, int)>) -> StateView
    decreases commands.len(),
{
    if commands.len() == 0 {
        state
    } else {
        step(run(state, commands.drop_last()), commands.last().0, commands.last().1)
    }
}

impl State {
    /// The grid has its full size and the piece lies on it.
    pub open spec fn wf(&self) -> bool {
        valid(self@)
    }

    /// A new game: an empty grid and the piece spawned for `draw`.
    pub fn new(draw: usize) -> (state: State)
        ensures
            state.wf(),
            state@.piece == spawn(draw as int),
            all_empty(state@.board),
    {
        State { board: init_board(), current_piece: Piece::new(draw) }
    }

    /// A game taken up again from its grid and its piece.
    pub fn from_parts(board: Board, current_piece: Piece) -> (state: State)
        requires
            board.wf(),
            current_piece.wf(),
        ensures
            state.wf(),
            state@ == (StateView { board: board@, piece: current_piece@ }),
    {
        State { board, current_piece }
    }

    /// The grid, without the falling piece.
    pub fn board(&self) -> (board: &Board)
        ensures
            board@ == self@.board,
    {
        &self.board
    }

    /// The falling piece.
    pub fn current_piece(&self) -> (piece: &Piece)
        ensures
            piece@ == self@.piece,
    {
        &self.current_piece
    }

    /// The colours in which the cells are drawn, in the order of their
    /// indices.
    pub fn displayed_colors(&self) -> (colors: Vec<String>)
        requires
            self.wf(),
        ensures
            colors@.len() == BOARD_CELLS,
            forall|index: int|
                0 <= index < BOARD_CELLS ==> (#[trigger] colors@[index])@ == displayed(
                    index,
                    self@.board[index],
                    self@.piece,
                ),
    {
        let cells = self.board.cells();
        let mut colors: Vec<String> = Vec::new();
        let mut index: usize = 0;
        while index < BOARD_CELLS
            invariant
                index <= BOARD_CELLS,
                cells@ == self@.board,
                cells@.len() == BOARD_CELLS,
                colors@.len() == index,
                forall|done: int|
                    0 <= done < index ==> (#[trigger] colors@[done])@ == displayed(
                        done,
                        self@.board[done],
                        self@.piece,
                    ),
            decreases BOARD_CELLS - index,
        {
            colors.push(displayed_color(index, &cells[index], &self.current_piece));
            index = index + 1;
        }
        colors
    }

    /// Carries out one command. A move or a rotation that is not legal
    /// changes nothing. A lock tests nothing.
    pub fn update(&mut self, event: GameEvent, draw: usize)
        requires
            old(self).wf(),
        ensures
            final(self).wf(),
            final(self)@ == step(old(self)@, event, draw as int),
    {
        match event {
            GameEvent::MoveCurrentPiece(direction) => {
                let position = attempt_move(&self.board, &self.current_piece.position(), direction);
                self.current_piece.move_to(position);
            },
            GameEvent::RotateCurrentPiece => {
                let position = attempt_rotate(&self.board, &self.current_piece.position());
                self.current_piece.move_to(position);
            },
            GameEvent::PlaceCurrentPiece => {
                let (w, x, y, z) = self.current_piece.position();
                let color = self.current_piece.color();
                self.board.set_occupied(w, color);
                self.board.set_occupied(x, color);
                self.board.set_occupied(y, color);
                self.board.set_occupied(z, color);
                self.current_piece = Piece::new(draw);
                assert(self.board@ =~= locked(
                    old(self)@.board,
                    old(self)@.piece.cells,
                    old(self)@.piece.color,
                ));
            },
            GameEvent::NoOP => {},
        }
    }
}

/// Whatever the command, the grid keeps its size and the piece stays on it.
pub proof fn lemma_step_keeps_valid(state: StateView, event: GameEvent, draw: int)
    requires
        valid(state),
    ensures
        valid(step(state, event, draw)),
{
}

/// Only a lock changes the grid or the colour of the piece.
pub proof fn lemma_only_lock_changes_grid(state: StateView, event: GameEvent, draw: int)
    requires
        !(event is PlaceCurrentPiece),
    ensures
        step(state, event, draw).board == state.board,
        step(state, event, draw).piece.color == state.piece.color,
{
}

/// A move or a rotation of which one cell fails one test changes nothing.
pub proof fn lemma_failed_attempt_changes_nothing(state: StateView, event: GameEvent, draw: int)
    requires
        event is MoveCurrentPiece || event is RotateCurrentPiece,
        ({
            let old = state.piece.cells;
            let new = proposed(old, event);
            cell_move_fails(state.board, old.0, new.0) || cell_move_fails(state.board, old.1, new.1)
                || cell_move_fails(state.board, old.2, new.2) || cell_move_fails(
                state.board,
                old.3,
                new.3,
            )
        }),
    ensures
        step(state, event, draw) == state,
{
}

/// A lock fills the four cells of the piece with its colour, leaves every
/// other cell as it was, and puts the piece of the draw on the grid.
pub proof fn lemma_lock_fills_cells(state: StateView, draw: int)
    requires
        valid(state),
    ensures
        ({
            let after = step(state, GameEvent::PlaceCurrentPiece, draw);
            let cells = state.piece.cells;
            &&& after.piece == spawn(draw)
            &&& after.board.len() == state.board.len()
            &&& forall|index: int|
                0 <= index < BOARD_CELLS ==> #[trigger] after.board[index] == if covers(
                    cells,
                    index,
                ) {
                    Cell { color: Some(state.piece.color) }
                } else {
                    state.board[index]
                }
            &&& occupied(after.board, cells.0)
            &&& occupied(after.board, cells.1)
            &&& occupied(after.board, cells.2)
            &&& occupied(after.board, cells.3)
        }),
{
}

/// No command empties a cell.
pub proof fn lemma_step_keeps_filled_cells(
    state: StateView,
    event: GameEvent,
    draw: int,
    index: int,
)
    requires
        occupied(state.board, index),
    ensures
        occupied(step(state, event, draw).board, index),
{
}

/// A cell that is filled stays filled, whatever commands follow.
pub proof fn lemma_filled_cells_stay_filled(
    state: StateView,
    commands: Seq<(GameEvent, int)>,
    index: int,
)
    requires
        occupied(state.board, index),
    ensures
        occupied(run(state, commands).board, index),
    decreases commands.len(),
{
    if commands.len() > 0 {
        lemma_filled_cells_stay_filled(state, commands.drop_last(), index);
        lemma_step_keeps_filled_cells(
            run(state, commands.drop_last()),
            commands.last().0,
            commands.last().1,
            index,
        );
    }
}

/// The cells that a lock has filled stay filled, whatever commands follow.
pub proof fn lemma_locked_cells_stay_filled(
    state: StateView,
    draw: int,
    commands: Seq<(GameEvent, int)>,
)
    requires
        valid(state),
    ensures
        ({
            let end = run(step(state, GameEvent::PlaceCurrentPiece, draw), commands);
            let cells = state.piece.cells;
            &&& occupied(end.board, cells.0)
            &&& occupied(end.board, cells.1)
            &&& occupied(end.board, cells.2)
            &&& occupied(end.board, cells.3)
        }),
{
    let after = step(state, GameEvent::PlaceCurrentPiece, draw);
    let cells = state.piece.cells;
    lemma_lock_fills_cells(state, draw);
    lemma_filled_cells_stay_filled(after, commands, cells.0);
    lemma_filled_cells_stay_filled(after, commands, cells.1);
    lemma_filled_cells_stay_filled(after, commands, cells.2);
    lemma_filled_cells_stay_filled(after, commands, cells.3);
}

/// Whatever commands are run, the grid keeps its size and the piece stays
/// on it.
pub proof fn lemma_run_keeps_valid(state: StateView, commands: Seq<(GameEvent, int)>)
    requires
        valid(state),
    ensures
        valid(run(state, commands)),
    decreases commands.len(),
{
    if commands.len() > 0 {
        lemma_run_keeps_valid(state, commands.drop_last());
        lemma_step_keeps_valid(
            run(state, commands.drop_last()),
            commands.last().0,
            commands.last().1,
        );
    }
}

/// Each piece of the spawn table, rotated four times where it entered the
/// grid, is back where it entered.
pub proof fn lemma_spawned_piece_turns_back(draw: int)
    ensures
        rotated(rotated(rotated(rotated(spawn(draw).cells)))) == spawn(draw).cells,
{
    if draw == 0 {
        lemma_turns((4, 5, 14, 15), 4, (4, 5, 14, 15));
    } else if draw == 1 {
        lemma_turns((14, 15, 5, 6), 4, (4, 14, 15, 25));
        lemma_turns((4, 14, 15, 25), 4, (14, 15, 5, 6));
    } else if draw == 2 {
        lemma_turns((4, 5, 15, 16), 4, (5, 14, 15, 24));
        lemma_turns((5, 14, 15, 24), 4, (4, 5, 15, 16));
    } else if draw == 3 {
        lemma_turns((5, 14, 15, 16), 4, (5, 15, 16, 25));
        lemma_turns((5, 15, 16, 25), 5, (14, 15, 16, 25));
        lemma_turns((14, 15, 16, 25), 14, (5, 14, 15, 25));
        lemma_turns((5, 14, 15, 25), 4, (5, 14, 15, 16));
    } else if draw == 4 {
        lemma_turns((14, 15, 16, 6), 4, (5, 15, 25, 26));
        lemma_turns((5, 15, 25, 26), 5, (14, 15, 16, 24));
        lemma_turns((14, 15, 16, 24), 14, (5, 6, 16, 26));
        lemma_turns((5, 6, 16, 26), 5, (14, 15, 16, 6));
    } else if draw == 5 {
        lemma_turns((4, 14, 15, 16), 4, (5, 6, 15, 25));
        lemma_turns((5, 6, 15, 25), 5, (4, 5, 6, 16));
        lemma_turns((4, 5, 6, 16), 4, (6, 16, 25, 26));
        lemma_turns((6, 16, 25, 26), 5, (4, 14, 15, 16));
    } else {
        lemma_turns((4, 14, 24, 34), 4, (13, 14, 15, 16));
        lemma_turns((13, 14, 15, 16), 13, (4, 14, 24, 34));
    }
}

/// One rotation, worked out from the corner of the cells and the entry of
/// the table.
proof fn lemma_turns(cells: Cells, corner: int, next: Cells)
    requires
        origin(cells) == corner,
        next == shifted(
            rotation_entry(shifted(cells, -corner)).0,
            corner + rotation_entry(shifted(cells, -corner)).1,
        ),
    ensures
        rotated(cells) == next,
{
}

/// On an empty grid each piece of the spawn table, after four attempts to
/// rotate it where it entered, is back where it entered: every one of the
/// four rotations is taken.
pub proof fn lemma_spawned_piece_turns_back_on_empty_grid(board: Seq<Cell>, draw: int)
    requires
        all_empty(board),
    ensures
        turned(board, turned(board, turned(board, turned(board, spawn(draw).cells)))) == spawn(
            draw,
        ).cells,
{
    if draw == 0 {
        lemma_turn_taken(board, (4, 5, 14, 15), 4, (4, 5, 14, 15));
    } else if draw == 1 {
        lemma_turn_taken(board, (14, 15, 5, 6), 4, (4, 14, 15, 25));
        lemma_turn_taken(board, (4, 14, 15, 25), 4, (14, 15, 5, 6));
    } else if draw == 2 {
        lemma_turn_taken(board, (4, 5, 15, 16), 4, (5, 14, 15, 24));
        lemma_turn_taken(board, (5, 14, 15, 24), 4, (4, 5, 15, 16));
    } else if draw == 3 {
        lemma_turn_taken(board, (5, 14, 15, 16), 4, (5, 15, 16, 25));
        lemma_turn_taken(board, (5, 15, 16, 25), 5, (14, 15, 16, 25));
        lemma_turn_taken(board, (14, 15, 16, 25), 14, (5, 14, 15, 25));
        lemma_turn_taken(board, (5, 14, 15, 25), 4, (5, 14, 15, 16));
    } else if draw == 4 {
        lemma_turn_taken(board, (14, 15, 16, 6), 4, (5, 15, 25, 26));
        lemma_turn_taken(board, (5, 15, 25, 26), 5, (14, 15, 16, 24));
        lemma_turn_taken(board, (14, 15, 16, 24), 14, (5, 6, 16, 26));
        lemma_turn_taken(board, (5, 6, 16, 26), 5, (14, 15, 16, 6));
    } else if draw == 5 {
        lemma_turn_taken(board, (4, 14, 15, 16), 4, (5, 6, 15, 25));
        lemma_turn_taken(board, (5, 6, 15, 25), 5, (4, 5, 6, 16));
        lemma_turn_taken(board, (4, 5, 6, 16), 4, (6, 16, 25, 26));
        lemma_turn_taken(board, (6, 16, 25, 26), 5, (4, 14, 15, 16));
    } else {
        lemma_turn_taken(board, (4, 14, 24, 34), 4, (13, 14, 15, 16));
        lemma_turn_taken(board, (13, 14, 15, 16), 13, (4, 14, 24, 34));
    }
}

/// One rotation on an empty grid, worked out, for a piece that neither
/// starts nor ends in a column at the edge.
proof fn lemma_turn_taken(board: Seq<Cell>, cells: Cells, corner: int, next: Cells)
    requires
        all_empty(board),
        origin(cells) == corner,
        next == shifted(
            rotation_entry(shifted(cells, -corner)).0,
            corner + rotation_entry(shifted(cells, -corner)).1,
        ),
        on_grid(next),
        !is_leftmost(cells.0) && !is_leftmost(cells.1) && !is_leftmost(cells.2) && !is_leftmost(
            cells.3,
        ),
        !is_rightmost(cells.0) && !is_rightmost(cells.1) && !is_rightmost(cells.2)
            && !is_rightmost(cells.3),
    ensures
        turned(board, cells) == next,
{
}

} // verus!
