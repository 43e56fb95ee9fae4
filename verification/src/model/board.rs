//! The board: an 8×8 grid of squares, each empty or holding one piece.

use vstd::prelude::*;
use vstd::string::*;
use crate::model::laws::{lemma_between_on_path, lemma_path_square_between};
use crate::model::piece::{glyph_of, Piece, Value};
use crate::model::rules::{
    distance, in_line, legal_move, occupant, occupied, on_board, on_diagonal, path_clear,
    path_square, pawn_reach, pawn_rule, span, strictly_between, well_formed, Placement, Square,
};

verus! {

/// The number of rows, and of columns, of the board.
pub const DIM: usize = 8;

/// The failure of `Board::move_piece`: the requested move is not legal.
#[derive(Debug, Clone, Copy, PartialEq, Eq)]
pub struct InvalidMoveError;

/// The square in the given row and column.
pub open spec fn square(row: usize, column: usize) -> Square {
    (row as int, column as int)
}

/// The text of one square: the glyph of the piece on it, or one space.
pub open spec fn square_text(grid: Placement, sq: Square) -> Seq<char> {
    match occupant(grid, sq) {
        Some(piece) => glyph_of(piece),
        None => " "@,
    }
}

/// The text of the first `columns` squares of a row, left to right.
pub open spec fn row_text(grid: Placement, row: int, columns: int) -> Seq<char>
    decreases columns,
{
    if columns <= 0 {
        Seq::empty()
    } else {
        row_text(grid, row, columns - 1) + square_text(grid, (row, columns - 1))
    }
}

/// The text of the first `rows` rows of the board, top to bottom: each row
/// is the text of its eight squares and ends with a line feed.
pub open spec fn board_text(grid: Placement, rows: int) -> Seq<char>
    decreases rows,
{
    if rows <= 0 {
        Seq::empty()
    } else {
        board_text(grid, rows - 1) + row_text(grid, rows - 1, DIM as int) + "\n"@
    }
}

/// An 8×8 board. Rows and columns are numbered from 0 to 7.
pub struct Board {
    fields: [[Option<Piece>; DIM]; DIM],
}

impl View for Board {
    type V = Placement;

    /// The placement of the pieces on the board.
    closed spec fn view(&self) -> Placement {
        Map::new(
            |sq: Square| on_board(sq) && self.fields[sq.0][sq.1] is Some,
            |sq: Square| self.fields[sq.0][sq.1]->0,
        )
    }
}

impl Board {
    /// Every piece of a board stands on one of its 64 squares.
    pub proof fn lemma_view_well_formed(&self)
        ensures
            well_formed(self@),
    {
    }

    /// Makes a board with no piece on it.
    pub fn new() -> (board: Board)
        ensures
            board@ == Placement::empty(),
    {
        Board { fields: [[None; DIM]; DIM] }
    }

    /// The piece on the given square, if there is one.
    pub fn get_field(&self, row: usize, column: usize) -> (piece: Option<Piece>)
        requires
            row < DIM,
            column < DIM,
        ensures
            piece == occupant(self@, square(row, column)),
    {
        self.fields[row][column]
    }

    /// Whether no piece stands on the given square.
    pub fn is_empty(&self, row: usize, column: usize) -> (empty: bool)
        requires
            row < DIM,
            column < DIM,
        ensures
            empty == !occupied(self@, square(row, column)),
    {
        self.get_field(row, column).is_none()
    }

    /// Whether a piece stands on the given square.
    pub fn is_occupied(&self, row: usize, column: usize) -> (taken: bool)
        requires
            row < DIM,
            column < DIM,
        ensures
            taken == occupied(self@, square(row, column)),
    {
        !self.is_empty(row, column)
    }

    /// Overwrites the given square with a piece, or empties it. No rule of
    /// movement is consulted.
    pub fn set_field(&mut self, row: usize, column: usize, value: Option<Piece>)
        requires
            row < DIM,
            column < DIM,
        ensures
            final(self)@ == match value {
                Some(piece) => old(self)@.insert(square(row, column), piece),
                None => old(self)@.remove(square(row, column)),
            },
            occupant(final(self)@, square(row, column)) == value,
    {
        self.fields[row][column] = value;
    }

    /// Whether every square strictly between two squares of the board that
    /// share a row, a column or a diagonal is empty.
    fn path_is_clear(
        &self,
        row_from: usize,
        column_from: usize,
        row_to: usize,
        column_to: usize,
    ) -> (clear: bool)
        requires
            row_from < DIM,
            column_from < DIM,
            row_to < DIM,
            column_to < DIM,
            in_line(square(row_from, column_from), square(row_to, column_to)) || on_diagonal(
                square(row_from, column_from),
                square(row_to, column_to),
            ),
        ensures
            clear == path_clear(self@, square(row_from, column_from), square(row_to, column_to)),
    {
        let ghost from: Square = square(row_from, column_from);
        let ghost to: Square = square(row_to, column_to);
        let rows = abs_diff(row_from, row_to);
        let columns = abs_diff(column_from, column_to);
        let steps = if rows >= columns {
            rows
        } else {
            columns
        };
        let mut k: usize = 1;
        while k < steps
            invariant
                1 <= k,
                steps == span(from, to),
                from == square(row_from, column_from),
                to == square(row_to, column_to),
                row_from < DIM,
                column_from < DIM,
                row_to < DIM,
                column_to < DIM,
                in_line(from, to) || on_diagonal(from, to),
                forall|j: int| 0 < j < k ==> !occupied(self@, #[trigger] path_square(from, to, j)),
            decreases steps - k,
        {
            let row = if row_to > row_from {
                row_from + k
            } else if row_to < row_from {
                row_from - k
            } else {
                row_from
            };
            let column = if column_to > column_from {
                column_from + k
            } else if column_to < column_from {
                column_from - k
            } else {
                column_from
            };
            assert(square(row, column) == path_square(from, to, k as int));
            proof {
                lemma_path_square_between(from, to, k as int);
            }
            if self.is_occupied(row, column) {
                return false;
            }
            k += 1;
        }
        assert forall|sq: Square| #[trigger] strictly_between(from, to, sq) implies !occupied(
            self@,
            sq,
        ) by {
            lemma_between_on_path(from, to, sq);
        }
        true
    }

    /// Whether a pawn may move between two squares of the board, as far as
    /// its own rule is concerned.
    fn pawn_may_move(
        &self,
        row_from: usize,
        column_from: usize,
        row_to: usize,
        column_to: usize,
    ) -> (allowed: bool)
        requires
            row_from < DIM,
            column_from < DIM,
            row_to < DIM,
            column_to < DIM,
        ensures
            allowed == pawn_rule(self@, square(row_from, column_from), square(row_to, column_to)),
    {
        let rows = abs_diff(row_from, row_to);
        let columns = abs_diff(column_from, column_to);
        if rows == 1 && columns == 1 {
            return self.is_occupied(row_to, column_to);
        }
        let reach: usize = if row_from == 0 {
            2
        } else {
            1
        };
        if column_from != column_to || rows > reach {
            return false;
        }
        let mut row = row_from + 1;
        while row <= row_to
            invariant
                row_from < row,
                row <= row_to + 1 || row_to < row_from,
                row_to < DIM,
                column_from < DIM,
                column_from == column_to,
                rows == distance(row_from as int, row_to as int),
                rows <= reach,
                reach == pawn_reach(square(row_from, column_from)),
                forall|sq: Square|
                    sq.1 == column_from && row_from < sq.0 < row ==> !#[trigger] occupied(
                        self@,
                        sq,
                    ),
            decreases row_to + 1 - row,
        {
            if self.is_occupied(row, column_from) {
                return false;
            }
            row += 1;
        }
        true
    }

    /// Whether the piece on the first square may move to the second.
    ///
    /// A square off the board holds no piece and receives none, so a move
    /// from or to such a square is never legal. The board is only read.
    pub fn is_valid_move(
        &self,
        row_from: usize,
        column_from: usize,
        row_to: usize,
        column_to: usize,
    ) -> (legal: bool)
        ensures
            legal == legal_move(self@, square(row_from, column_from), square(row_to, column_to)),
            row_from == row_to && column_from == column_to ==> !legal,
            row_to >= DIM || column_to >= DIM ==> !legal,
    {
        if row_from == row_to && column_from == column_to {
            return false;
        }
        if row_to >= DIM || column_to >= DIM {
            return false;
        }
        if row_from >= DIM || column_from >= DIM {
            return false;
        }
        let piece = match self.get_field(row_from, column_from) {
            Some(piece) => piece,
            None => {
                return false;
            },
        };
        if let Some(target) = self.get_field(row_to, column_to) {
            if target.color == piece.color {
                return false;
            }
        }
        let rows = abs_diff(row_from, row_to);
        let columns = abs_diff(column_from, column_to);
        match piece.value {
            Value::King => rows <= 1 && columns <= 1,
            Value::Queen => (rows == 0 || columns == 0 || rows == columns) && self.path_is_clear(
                row_from,
                column_from,
                row_to,
                column_to,
            ),
            Value::Rook => (rows == 0 || columns == 0) && self.path_is_clear(
                row_from,
                column_from,
                row_to,
                column_to,
            ),
            Value::Bishop => rows == columns && self.path_is_clear(
                row_from,
                column_from,
                row_to,
                column_to,
            ),
            Value::Knight => (rows == 1 && columns == 2) || (rows == 2 && columns == 1),
            Value::Pawn => self.pawn_may_move(row_from, column_from, row_to, column_to),
        }
    }

    /// Moves the piece on the first square to the second, if that move is
    /// legal, and hands back the piece that stood on the destination, if
    /// any. An illegal move fails and leaves the board as it was.
    pub fn move_piece(
        &mut self,
        row_from: usize,
        column_from: usize,
        row_to: usize,
        column_to: usize,
    ) -> (outcome: Result<Option<Piece>, InvalidMoveError>)
        ensures
            match outcome {
                Ok(captured) => {
                    let from = square(row_from, column_from);
                    let to = square(row_to, column_to);
                    &&& legal_move(old(self)@, from, to)
                    &&& captured == occupant(old(self)@, to)
                    &&& final(self)@ == old(self)@.remove(from).insert(to, old(self)@[from])
                    &&& occupant(final(self)@, to) == occupant(old(self)@, from)
                    &&& !occupied(final(self)@, from)
                },
                Err(_) => {
                    &&& !legal_move(
                        old(self)@,
                        square(row_from, column_from),
                        square(row_to, column_to),
                    )
                    &&& *final(self) == *old(self)
                },
            },
    {
        if !self.is_valid_move(row_from, column_from, row_to, column_to) {
            return Err(InvalidMoveError);
        }
        let piece = self.get_field(row_from, column_from);
        let removed_piece = self.get_field(row_to, column_to);
        self.set_field(row_to, column_to, piece);
        self.set_field(row_from, column_from, None);
        Ok(removed_piece)
    }

    /// The board as text: eight lines, one for each row from row 0 on, each
    /// holding the glyph of every piece of the row and a space for every
    /// empty square.
    pub fn render(&self) -> (text: String)
        ensures
            text@ == board_text(self@, DIM as int),
    {
        let mut text = String::new();
        let mut row: usize = 0;
        while row < DIM
            invariant
                row <= DIM,
                text@ == board_text(self@, row as int),
            decreases DIM - row,
        {
            let ghost above = text@;
            let mut column: usize = 0;
            while column < DIM
                invariant
                    row < DIM,
                    column <= DIM,
                    text@ == above + row_text(self@, row as int, column as int),
                decreases DIM - column,
            {
                let ghost left = row_text(self@, row as int, column as int);
                let ghost here = square_text(self@, square(row, column));
                match self.get_field(row, column) {
                    Some(piece) => text.append(piece.glyph()),
                    None => text.append(" "),
                }
                assert(text@ == above + (left + here));
                column += 1;
            }
            text.append("\n");
            row += 1;
        }
        text
    }
}

/// The distance between two coordinates.
fn abs_diff(x: usize, y: usize) -> (d: usize)
    ensures
        d == distance(x as int, y as int),
{
    if x > y {
        x - y
    } else {
        y - x
    }
}

} // verus!
