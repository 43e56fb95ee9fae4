use chessboard::model::board::Board;
use chessboard::model::piece::{Color, Piece, Value};

const KINDS: [Value; 6] =
    [Value::King, Value::Queen, Value::Rook, Value::Bishop, Value::Knight, Value::Pawn];

fn distance(a: usize, b: usize) -> usize {
    if a > b {
        a - b
    } else {
        b - a
    }
}

fn board_with(row: usize, column: usize, piece: Piece) -> Board {
    let mut board = Board::new();
    board.set_field(row, column, Some(piece));
    board
}

/// Checks a lone piece on (3, 4) against the shape of its move, for every
/// destination on the board and a margin of squares beyond it.
fn check_lone_piece(kind: Value, shape: fn(usize, usize) -> bool) {
    let (row, column) = (3, 4);
    let board = board_with(row, column, Piece::new(Color::White, kind));
    for row_to in 0..11 {
        for column_to in 0..11 {
            let rows = distance(row, row_to);
            let columns = distance(column, column_to);
            let expected =
                row_to < 8 && column_to < 8 && (rows, columns) != (0, 0) && shape(rows, columns);
            assert_eq!(
                board.is_valid_move(row, column, row_to, column_to),
                expected,
                "{:?} from ({}, {}) to ({}, {})",
                kind,
                row,
                column,
                row_to,
                column_to
            );
        }
    }
}

#[test]
fn null_move_is_illegal_for_every_piece() {
    for kind in KINDS {
        for color in [Color::White, Color::Black] {
            let board = board_with(2, 5, Piece::new(color, kind));
            assert!(!board.is_valid_move(2, 5, 2, 5));
        }
    }
}

#[test]
fn null_move_is_illegal_on_an_empty_square() {
    let board = Board::new();
    assert!(!board.is_valid_move(2, 5, 2, 5));
}

#[test]
fn destination_off_the_board_is_illegal_for_every_piece() {
    for kind in KINDS {
        let board = board_with(7, 7, Piece::new(Color::White, kind));
        assert!(!board.is_valid_move(7, 7, 8, 7));
        assert!(!board.is_valid_move(7, 7, 7, 8));
        assert!(!board.is_valid_move(7, 7, 8, 8));
        assert!(!board.is_valid_move(7, 7, 8, 6));
        assert!(!board.is_valid_move(7, 7, 9, 7));
        assert!(!board.is_valid_move(7, 7, 7, usize::MAX));
        assert!(!board.is_valid_move(7, 7, usize::MAX, 7));
    }
}

#[test]
fn first_row_and_column_off_the_board_are_illegal() {
    let board = board_with(7, 0, Piece::new(Color::Black, Value::Rook));
    assert!(board.is_valid_move(7, 0, 7, 7));
    assert!(!board.is_valid_move(7, 0, 7, 8));
    assert!(board.is_valid_move(7, 0, 0, 0));
    assert!(!board.is_valid_move(7, 0, 8, 0));
}

#[test]
fn source_off_the_board_is_illegal() {
    let board = board_with(7, 7, Piece::new(Color::White, Value::Queen));
    assert!(!board.is_valid_move(8, 7, 7, 7));
    assert!(!board.is_valid_move(7, 8, 7, 6));
    assert!(!board.is_valid_move(usize::MAX, usize::MAX, 0, 0));
    assert!(!board.is_valid_move(9, 9, 9, 9));
    assert!(!board.is_valid_move(9, 9, 10, 10));
}

#[test]
fn empty_source_is_illegal() {
    let board = board_with(0, 0, Piece::new(Color::White, Value::Queen));
    assert!(!board.is_valid_move(1, 1, 2, 2));
    assert!(!board.is_valid_move(1, 1, 0, 0));
}

#[test]
fn king_moves_one_step_in_any_direction() {
    check_lone_piece(Value::King, |rows, columns| rows <= 1 && columns <= 1);
}

#[test]
fn queen_moves_along_lines_and_diagonals() {
    check_lone_piece(Value::Queen, |rows, columns| rows == 0 || columns == 0 || rows == columns);
}

#[test]
fn rook_moves_along_lines() {
    check_lone_piece(Value::Rook, |rows, columns| rows == 0 || columns == 0);
}

#[test]
fn bishop_moves_along_diagonals() {
    check_lone_piece(Value::Bishop, |rows, columns| rows == columns);
}

#[test]
fn knight_moves_by_its_leap() {
    check_lone_piece(Value::Knight, |rows, columns| {
        (rows == 1 && columns == 2) || (rows == 2 && columns == 1)
    });
}

#[test]
fn lone_pawn_moves_one_row_in_its_column() {
    check_lone_piece(Value::Pawn, |rows, columns| rows == 1 && columns == 0);
}

#[test]
fn knight_jumps_when_surrounded() {
    let mut board = board_with(4, 4, Piece::new(Color::White, Value::Knight));
    for row in 3..6 {
        for column in 3..6 {
            if (row, column) != (4, 4) {
                board.set_field(row, column, Some(Piece::new(Color::White, Value::Pawn)));
            }
        }
    }
    let leaps = [(6, 5), (6, 3), (2, 5), (2, 3), (5, 6), (5, 2), (3, 6), (3, 2)];
    for (row, column) in leaps {
        assert!(board.is_valid_move(4, 4, row, column));
    }
    assert!(!board.is_valid_move(4, 4, 5, 5));
    assert!(!board.is_valid_move(4, 4, 6, 4));
}

#[test]
fn rook_is_stopped_by_any_piece_in_between() {
    for blocker_column in 1..7 {
        for color in [Color::White, Color::Black] {
            let mut board = board_with(2, 0, Piece::new(Color::White, Value::Rook));
            assert!(board.is_valid_move(2, 0, 2, 7));
            board.set_field(2, blocker_column, Some(Piece::new(color, Value::Knight)));
            assert!(!board.is_valid_move(2, 0, 2, 7));
            assert!(!board.is_valid_move(2, 0, 2, blocker_column + 1));
            if blocker_column > 1 {
                assert!(board.is_valid_move(2, 0, 2, blocker_column - 1));
            }
        }
    }
}

#[test]
fn rook_is_stopped_along_a_column_in_both_directions() {
    let mut board = board_with(4, 3, Piece::new(Color::Black, Value::Rook));
    board.set_field(2, 3, Some(Piece::new(Color::White, Value::Bishop)));
    board.set_field(6, 3, Some(Piece::new(Color::White, Value::Bishop)));
    assert!(board.is_valid_move(4, 3, 3, 3));
    assert!(board.is_valid_move(4, 3, 2, 3));
    assert!(!board.is_valid_move(4, 3, 1, 3));
    assert!(!board.is_valid_move(4, 3, 0, 3));
    assert!(board.is_valid_move(4, 3, 5, 3));
    assert!(board.is_valid_move(4, 3, 6, 3));
    assert!(!board.is_valid_move(4, 3, 7, 3));
}

#[test]
fn bishop_is_stopped_by_any_piece_in_between() {
    for step in 1..7 {
        let mut board = board_with(0, 0, Piece::new(Color::White, Value::Bishop));
        assert!(board.is_valid_move(0, 0, 7, 7));
        board.set_field(step, step, Some(Piece::new(Color::Black, Value::Pawn)));
        assert!(!board.is_valid_move(0, 0, 7, 7));
        assert!(board.is_valid_move(0, 0, step, step));
    }
}

#[test]
fn bishop_is_not_stopped_by_pieces_beside_its_path() {
    let mut board = board_with(5, 1, Piece::new(Color::White, Value::Bishop));
    board.set_field(4, 1, Some(Piece::new(Color::Black, Value::Pawn)));
    board.set_field(5, 2, Some(Piece::new(Color::Black, Value::Pawn)));
    board.set_field(3, 2, Some(Piece::new(Color::Black, Value::Pawn)));
    board.set_field(1, 6, Some(Piece::new(Color::Black, Value::Pawn)));
    assert!(board.is_valid_move(5, 1, 2, 4));
    board.set_field(3, 3, Some(Piece::new(Color::Black, Value::Pawn)));
    assert!(!board.is_valid_move(5, 1, 2, 4));
}

#[test]
fn queen_is_stopped_on_every_kind_of_line() {
    let mut board = board_with(3, 3, Piece::new(Color::Black, Value::Queen));
    board.set_field(3, 5, Some(Piece::new(Color::White, Value::Pawn)));
    board.set_field(5, 3, Some(Piece::new(Color::White, Value::Pawn)));
    board.set_field(5, 5, Some(Piece::new(Color::White, Value::Pawn)));
    board.set_field(1, 5, Some(Piece::new(Color::White, Value::Pawn)));
    assert!(!board.is_valid_move(3, 3, 3, 6));
    assert!(!board.is_valid_move(3, 3, 6, 3));
    assert!(!board.is_valid_move(3, 3, 6, 6));
    assert!(!board.is_valid_move(3, 3, 0, 6));
    assert!(board.is_valid_move(3, 3, 3, 0));
    assert!(board.is_valid_move(3, 3, 0, 3));
    assert!(board.is_valid_move(3, 3, 0, 0));
    assert!(board.is_valid_move(3, 3, 6, 0));
    assert!(!board.is_valid_move(3, 3, 5, 4));
}

#[test]
fn sliders_capture_at_the_end_of_a_clear_path() {
    for kind in [Value::Bishop, Value::Queen] {
        let mut board = board_with(1, 1, Piece::new(Color::White, kind));
        board.set_field(4, 4, Some(Piece::new(Color::Black, Value::Rook)));
        assert!(board.is_valid_move(1, 1, 4, 4));
        assert!(board.is_valid_move(1, 1, 2, 2));
        assert!(!board.is_valid_move(1, 1, 5, 5));
    }
    for kind in [Value::Rook, Value::Queen] {
        let mut board = board_with(1, 1, Piece::new(Color::White, kind));
        board.set_field(1, 4, Some(Piece::new(Color::Black, Value::Rook)));
        assert!(board.is_valid_move(1, 1, 1, 4));
        assert!(!board.is_valid_move(1, 1, 1, 5));
    }
}

#[test]
fn own_color_on_the_destination_is_illegal_for_every_piece() {
    let targets = [
        (Value::King, (4, 5)),
        (Value::Queen, (7, 7)),
        (Value::Rook, (4, 0)),
        (Value::Bishop, (1, 1)),
        (Value::Knight, (6, 5)),
        (Value::Pawn, (5, 5)),
    ];
    for color in [Color::White, Color::Black] {
        let other = if color == Color::White { Color::Black } else { Color::White };
        for (kind, (row, column)) in targets {
            let mut board = board_with(4, 4, Piece::new(color, kind));
            board.set_field(row, column, Some(Piece::new(color, Value::Queen)));
            assert!(!board.is_valid_move(4, 4, row, column));
            board.set_field(row, column, Some(Piece::new(other, Value::Queen)));
            assert!(board.is_valid_move(4, 4, row, column));
        }
    }
}

#[test]
fn pawn_steps_one_row_away_from_row_zero() {
    let board = board_with(3, 2, Piece::new(Color::White, Value::Pawn));
    assert!(board.is_valid_move(3, 2, 4, 2));
    assert!(!board.is_valid_move(3, 2, 5, 2));
    assert!(!board.is_valid_move(3, 2, 6, 2));
}

#[test]
fn pawn_steps_up_to_two_rows_from_row_zero() {
    let board = board_with(0, 2, Piece::new(Color::White, Value::Pawn));
    assert!(board.is_valid_move(0, 2, 1, 2));
    assert!(board.is_valid_move(0, 2, 2, 2));
    assert!(!board.is_valid_move(0, 2, 3, 2));
}

#[test]
fn pawn_does_not_advance_onto_a_piece() {
    for color in [Color::White, Color::Black] {
        let mut board = board_with(3, 2, Piece::new(Color::White, Value::Pawn));
        board.set_field(4, 2, Some(Piece::new(color, Value::Knight)));
        assert!(!board.is_valid_move(3, 2, 4, 2));

        let mut board = board_with(0, 2, Piece::new(Color::White, Value::Pawn));
        board.set_field(2, 2, Some(Piece::new(color, Value::Knight)));
        assert!(board.is_valid_move(0, 2, 1, 2));
        assert!(!board.is_valid_move(0, 2, 2, 2));
    }
}

#[test]
fn pawn_does_not_advance_over_a_piece() {
    let mut board = board_with(0, 2, Piece::new(Color::White, Value::Pawn));
    board.set_field(1, 2, Some(Piece::new(Color::Black, Value::Knight)));
    assert!(!board.is_valid_move(0, 2, 1, 2));
    assert!(!board.is_valid_move(0, 2, 2, 2));
}

#[test]
fn pawn_moves_diagonally_only_to_capture() {
    let mut board = board_with(3, 3, Piece::new(Color::White, Value::Pawn));
    for (row, column) in [(4, 4), (4, 2), (2, 4), (2, 2)] {
        assert!(!board.is_valid_move(3, 3, row, column));
        board.set_field(row, column, Some(Piece::new(Color::Black, Value::Pawn)));
        assert!(board.is_valid_move(3, 3, row, column));
        board.set_field(row, column, Some(Piece::new(Color::White, Value::Pawn)));
        assert!(!board.is_valid_move(3, 3, row, column));
        board.set_field(row, column, None);
    }
    assert!(!board.is_valid_move(3, 3, 5, 5));
}

#[test]
fn pawn_distance_is_taken_without_direction() {
    let mut board = board_with(3, 3, Piece::new(Color::White, Value::Pawn));
    assert!(board.is_valid_move(3, 3, 2, 3));
    assert!(!board.is_valid_move(3, 3, 1, 3));
    board.set_field(2, 3, Some(Piece::new(Color::Black, Value::Rook)));
    assert!(board.is_valid_move(3, 3, 2, 3));
    board.set_field(2, 3, Some(Piece::new(Color::White, Value::Rook)));
    assert!(!board.is_valid_move(3, 3, 2, 3));
}

#[test]
fn pawn_does_not_move_sideways() {
    let board = board_with(0, 3, Piece::new(Color::White, Value::Pawn));
    assert!(!board.is_valid_move(0, 3, 0, 4));
    assert!(!board.is_valid_move(0, 3, 0, 2));
    assert!(!board.is_valid_move(0, 3, 1, 5));
    assert!(!board.is_valid_move(0, 3, 2, 4));
}

#[test]
fn legality_does_not_change_the_board() {
    let mut board = board_with(3, 3, Piece::new(Color::White, Value::Queen));
    board.set_field(3, 6, Some(Piece::new(Color::Black, Value::King)));
    let before = board.render();
    for row in 0..9 {
        for column in 0..9 {
            board.is_valid_move(3, 3, row, column);
        }
    }
    assert_eq!(board.render(), before);
}
