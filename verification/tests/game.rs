use tetris_engine::game::{decode_event, displayed_color, GameEvent, State};
use tetris_engine::grid::{init_board, Cell, Color};
use tetris_engine::moves::{attempt_move, attempt_rotate};
use tetris_engine::piece::Piece;
use tetris_engine::translation::Direction;

fn filled_cells(state: &State) -> Vec<usize> {
    (0..240).filter(|index| state.board().is_occupied(*index)).collect()
}

#[test]
fn six_keys_have_a_command() {
    assert_eq!(decode_event("a"), GameEvent::MoveCurrentPiece(Direction::Left));
    assert_eq!(decode_event("s"), GameEvent::MoveCurrentPiece(Direction::Down));
    assert_eq!(decode_event("d"), GameEvent::MoveCurrentPiece(Direction::Right));
    assert_eq!(decode_event("w"), GameEvent::MoveCurrentPiece(Direction::Up));
    assert_eq!(decode_event("p"), GameEvent::PlaceCurrentPiece);
    assert_eq!(decode_event(" "), GameEvent::RotateCurrentPiece);
}

#[test]
fn other_keys_have_no_command() {
    for key in ["", "A", "x", "aa", "a ", " a", "ArrowLeft", "Enter", "  ", "\u{e4}", "\u{1f600}"] {
        assert_eq!(decode_event(key), GameEvent::NoOP);
    }
}

#[test]
fn new_game_has_an_empty_grid_and_the_drawn_piece() {
    for draw in 0..9 {
        let state = State::new(draw);
        assert_eq!(state.board(), &init_board());
        assert_eq!(state.current_piece(), &Piece::new(draw));
        assert!(filled_cells(&state).is_empty());
    }
}

#[test]
fn square_moves_down_once() {
    let mut state = State::new(0);
    assert_eq!(state.current_piece().position(), (4, 5, 14, 15));
    state.update(GameEvent::MoveCurrentPiece(Direction::Down), 0);
    assert_eq!(state.current_piece().position(), (14, 15, 24, 25));
    assert_eq!(state.current_piece().color(), Color::Yellow);
    assert!(filled_cells(&state).is_empty());
}

#[test]
fn square_stops_at_the_bottom() {
    let mut state = State::new(0);
    for moves in 1..=22 {
        state.update(GameEvent::MoveCurrentPiece(Direction::Down), 0);
        let by = 10 * moves;
        assert_eq!(state.current_piece().position(), (4 + by, 5 + by, 14 + by, 15 + by));
    }
    assert_eq!(state.current_piece().position(), (224, 225, 234, 235));
    for _ in 0..3 {
        state.update(GameEvent::MoveCurrentPiece(Direction::Down), 0);
        assert_eq!(state.current_piece().position(), (224, 225, 234, 235));
    }
}

#[test]
fn square_does_not_rotate() {
    let mut state = State::new(0);
    state.update(GameEvent::RotateCurrentPiece, 0);
    assert_eq!(state.current_piece().position(), (4, 5, 14, 15));
    state.update(GameEvent::MoveCurrentPiece(Direction::Down), 0);
    state.update(GameEvent::RotateCurrentPiece, 0);
    assert_eq!(state.current_piece().position(), (14, 15, 24, 25));
}

#[test]
fn piece_stops_above_a_filled_cell_and_not_before() {
    let mut board = init_board();
    board.set_occupied(232, Color::Red);
    let mut position = (2, 3, 12, 13);
    for moves in 1..=21 {
        position = attempt_move(&board, &position, Direction::Down);
        let by = 10 * moves;
        assert_eq!(position, (2 + by, 3 + by, 12 + by, 13 + by));
    }
    assert_eq!(position, (212, 213, 222, 223));
    assert_eq!(attempt_move(&board, &position, Direction::Down), (212, 213, 222, 223));
}

#[test]
fn game_with_a_filled_cell_stops_the_piece_there() {
    let mut board = init_board();
    board.set_occupied(232, Color::Red);
    let piece = Piece::from_parts(Color::Yellow, (2, 3, 12, 13)).expect("on the grid");
    let mut state = State::from_parts(board, piece);
    for _ in 0..21 {
        state.update(GameEvent::MoveCurrentPiece(Direction::Down), 0);
    }
    assert_eq!(state.current_piece().position(), (212, 213, 222, 223));
    state.update(GameEvent::MoveCurrentPiece(Direction::Down), 0);
    assert_eq!(state.current_piece().position(), (212, 213, 222, 223));
    // One column further to the right nothing is in the way.
    state.update(GameEvent::MoveCurrentPiece(Direction::Right), 0);
    state.update(GameEvent::MoveCurrentPiece(Direction::Down), 0);
    assert_eq!(state.current_piece().position(), (223, 224, 233, 234));
    assert_eq!(filled_cells(&state), vec![232]);
}

#[test]
fn rejected_commands_change_nothing() {
    let mut board = init_board();
    board.set_occupied(24, Color::Blue);
    let piece = Piece::from_parts(Color::Red, (4, 5, 15, 16)).expect("on the grid");
    let mut state = State::from_parts(board, piece);
    let before = state.clone();
    state.update(GameEvent::MoveCurrentPiece(Direction::Up), 1);
    assert_eq!(state, before);
    state.update(GameEvent::RotateCurrentPiece, 2);
    assert_eq!(state, before);
    state.update(GameEvent::NoOP, 3);
    assert_eq!(state, before);

    let edge = Piece::from_parts(Color::Red, (8, 9, 19, 10)).expect("on the grid");
    let mut state = State::from_parts(init_board(), edge);
    let before = state.clone();
    state.update(GameEvent::MoveCurrentPiece(Direction::Right), 4);
    assert_eq!(state, before);
    state.update(GameEvent::MoveCurrentPiece(Direction::Left), 5);
    assert_eq!(state, before);
}

#[test]
fn moves_are_never_partial() {
    let mut board = init_board();
    board.set_occupied(117, Color::Green);
    let start = (104, 105, 106, 116);
    for direction in [Direction::Up, Direction::Down, Direction::Left, Direction::Right] {
        let by: i64 = match direction {
            Direction::Up => -10,
            Direction::Down => 10,
            Direction::Left => -1,
            Direction::Right => 1,
        };
        let shifted = (
            (104 + by) as usize,
            (105 + by) as usize,
            (106 + by) as usize,
            (116 + by) as usize,
        );
        let after = attempt_move(&board, &start, direction);
        assert!(after == shifted || after == start);
        assert_eq!(after == start, direction == Direction::Right);
    }
}

#[test]
fn lock_fills_the_cells_and_spawns_the_drawn_piece() {
    let mut state = State::new(0);
    for _ in 0..22 {
        state.update(GameEvent::MoveCurrentPiece(Direction::Down), 0);
    }
    state.update(GameEvent::PlaceCurrentPiece, 2);
    assert_eq!(filled_cells(&state), vec![224, 225, 234, 235]);
    for index in [224, 225, 234, 235] {
        assert_eq!(state.board().cell_at(index), Ok(Cell { color: Some(Color::Yellow) }));
    }
    assert_eq!(state.current_piece(), &Piece::new(2));
    assert_eq!(state.current_piece().color(), Color::Red);
    assert_eq!(state.current_piece().position(), (4, 5, 15, 16));
}

#[test]
fn locked_cells_stay_filled() {
    let mut state = State::new(5);
    for _ in 0..22 {
        state.update(GameEvent::MoveCurrentPiece(Direction::Down), 0);
    }
    assert_eq!(state.current_piece().position(), (224, 234, 235, 236));
    state.update(GameEvent::PlaceCurrentPiece, 6);
    let commands = [
        GameEvent::MoveCurrentPiece(Direction::Down),
        GameEvent::RotateCurrentPiece,
        GameEvent::MoveCurrentPiece(Direction::Left),
        GameEvent::MoveCurrentPiece(Direction::Right),
        GameEvent::MoveCurrentPiece(Direction::Up),
        GameEvent::NoOP,
        GameEvent::PlaceCurrentPiece,
    ];
    for round in 0..30 {
        for (offset, command) in commands.iter().enumerate() {
            let before = filled_cells(&state);
            state.update(*command, round + offset);
            let after = filled_cells(&state);
            assert!(before.iter().all(|index| after.contains(index)));
            for index in [224, 234, 235, 236] {
                assert_eq!(state.board().cell_at(index), Ok(Cell { color: Some(Color::Blue) }));
            }
        }
    }
}

#[test]
fn falling_piece_lands_on_locked_cells() {
    let mut state = State::new(0);
    for _ in 0..22 {
        state.update(GameEvent::MoveCurrentPiece(Direction::Down), 0);
    }
    state.update(GameEvent::PlaceCurrentPiece, 0);
    for _ in 0..30 {
        state.update(GameEvent::MoveCurrentPiece(Direction::Down), 0);
    }
    assert_eq!(state.current_piece().position(), (204, 205, 214, 215));
}

#[test]
fn lock_tests_nothing() {
    // The new piece enters where the locked one lies. It cannot move or
    // rotate, and a second lock writes over the cells of the first.
    let mut state = State::new(0);
    state.update(GameEvent::PlaceCurrentPiece, 3);
    assert_eq!(filled_cells(&state), vec![4, 5, 14, 15]);
    assert_eq!(state.current_piece().position(), (5, 14, 15, 16));
    for command in [
        GameEvent::MoveCurrentPiece(Direction::Down),
        GameEvent::MoveCurrentPiece(Direction::Left),
        GameEvent::MoveCurrentPiece(Direction::Right),
        GameEvent::MoveCurrentPiece(Direction::Up),
        GameEvent::RotateCurrentPiece,
    ] {
        state.update(command, 0);
        assert_eq!(state.current_piece().position(), (5, 14, 15, 16));
    }
    state.update(GameEvent::PlaceCurrentPiece, 1);
    assert_eq!(filled_cells(&state), vec![4, 5, 14, 15, 16]);
    assert_eq!(state.board().cell_at(4), Ok(Cell { color: Some(Color::Yellow) }));
    assert_eq!(state.board().cell_at(5), Ok(Cell { color: Some(Color::Purple) }));
    assert_eq!(state.board().cell_at(14), Ok(Cell { color: Some(Color::Purple) }));
    assert_eq!(state.board().cell_at(15), Ok(Cell { color: Some(Color::Purple) }));
    assert_eq!(state.board().cell_at(16), Ok(Cell { color: Some(Color::Purple) }));
    assert_eq!(state.current_piece(), &Piece::new(1));
}

#[test]
fn only_a_lock_looks_at_the_draw() {
    let mut first = State::new(4);
    let mut second = State::new(4);
    for command in [
        GameEvent::MoveCurrentPiece(Direction::Down),
        GameEvent::RotateCurrentPiece,
        GameEvent::MoveCurrentPiece(Direction::Left),
        GameEvent::NoOP,
    ] {
        first.update(command, 1);
        second.update(command, 6);
        assert_eq!(first, second);
    }
    first.update(GameEvent::PlaceCurrentPiece, 1);
    second.update(GameEvent::PlaceCurrentPiece, 6);
    assert_eq!(first.board(), second.board());
    assert_eq!(first.current_piece().color(), Color::Green);
    assert_eq!(second.current_piece().color(), Color::Turquoise);
}

#[test]
fn game_rotates_a_spawned_piece_back_in_four_turns() {
    for draw in 0..7 {
        let mut state = State::new(draw);
        let start = state.clone();
        for _ in 0..4 {
            state.update(GameEvent::RotateCurrentPiece, 0);
        }
        assert_eq!(state, start);
    }
}

#[test]
fn game_rotation_equals_attempt_rotate() {
    let mut state = State::new(3);
    state.update(GameEvent::MoveCurrentPiece(Direction::Down), 0);
    let expected = attempt_rotate(state.board(), &state.current_piece().position());
    state.update(GameEvent::RotateCurrentPiece, 0);
    assert_eq!(state.current_piece().position(), expected);
    assert_eq!(expected, (15, 25, 26, 35));
}

#[test]
fn falling_piece_is_drawn_over_the_grid() {
    let piece = Piece::new(2);
    let empty = Cell { color: None };
    let filled = Cell { color: Some(Color::Blue) };
    assert_eq!(displayed_color(4, &empty, &piece), "#ff0000");
    assert_eq!(displayed_color(16, &filled, &piece), "#ff0000");
    assert_eq!(displayed_color(6, &empty, &piece), "white");
    assert_eq!(displayed_color(14, &filled, &piece), "#4169e1");
}

#[test]
fn every_cell_of_the_game_has_its_colour() {
    let mut state = State::new(0);
    for _ in 0..22 {
        state.update(GameEvent::MoveCurrentPiece(Direction::Down), 0);
    }
    state.update(GameEvent::PlaceCurrentPiece, 1);
    let colors = state.displayed_colors();
    assert_eq!(colors.len(), 240);
    for (index, color) in colors.iter().enumerate() {
        let expected = match index {
            14 | 15 | 5 | 6 => " #00ff00",
            224 | 225 | 234 | 235 => "#ffff00",
            _ => "white",
        };
        assert_eq!(color, expected);
    }
}

#[test]
fn game_clone_is_equal_and_independent() {
    let mut state = State::new(1);
    let copy = state.clone();
    assert_eq!(copy, state);
    state.update(GameEvent::MoveCurrentPiece(Direction::Down), 0);
    assert_ne!(copy, state);
    assert_eq!(copy.current_piece().position(), (14, 15, 5, 6));
}
