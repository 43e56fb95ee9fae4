//! The rules of movement, stated over a placement of pieces.
//!
//! Everything here is mathematics: a placement says which squares are
//! occupied and by what, and `legal_move` says whether the piece on one
//! square may move to another. The rules look at the placement alone: they
//! know no turn order, no check, no castling, no capture in passing and no
//! promotion. The board's operations are specified in these terms.

use vstd::prelude::*;
use crate::model::piece::{Piece, Value};

verus! {

/// A square, as (row, column). The squares of the board have both
/// coordinates in `0..8`; other pairs name squares off the board.
pub type Square = (int, int);

/// Which squares are occupied, and by which piece. Only the squares of the
/// board count: see `occupied`.
pub type Placement = Map<Square, Piece>;

/// Whether the square lies on the 8×8 board.
pub open spec fn on_board(sq: Square) -> bool {
    0 <= sq.0 < 8 && 0 <= sq.1 < 8
}

/// A placement is well formed when it has no entry for a square off the
/// board.
pub open spec fn well_formed(grid: Placement) -> bool {
    forall|sq: Square| grid.dom().contains(sq) ==> on_board(sq)
}

/// Whether a piece stands on the square. No piece stands off the board.
pub open spec fn occupied(grid: Placement, sq: Square) -> bool {
    on_board(sq) && grid.dom().contains(sq)
}

/// The piece on the square, if there is one.
pub open spec fn occupant(grid: Placement, sq: Square) -> Option<Piece> {
    if occupied(grid, sq) {
        Some(grid[sq])
    } else {
        None
    }
}

/// The distance between two coordinates.
pub open spec fn distance(a: int, b: int) -> int {
    if a > b {
        a - b
    } else {
        b - a
    }
}

/// The number of single steps, each along a row, a column or a diagonal,
/// that a straight move between the two squares takes.
pub open spec fn span(from: Square, to: Square) -> int {
    let rows = distance(from.0, to.0);
    let columns = distance(from.1, to.1);
    if rows >= columns {
        rows
    } else {
        columns
    }
}

/// Whether the two squares share a row or a column.
pub open spec fn in_line(from: Square, to: Square) -> bool {
    from.0 == to.0 || from.1 == to.1
}

/// Whether the two squares lie on a common diagonal.
pub open spec fn on_diagonal(from: Square, to: Square) -> bool {
    distance(from.0, to.0) == distance(from.1, to.1)
}

/// Whether `sq` lies strictly between `from` and `to` on the row, column or
/// diagonal that the two share: it is neither of them, it is in line with
/// both in the way they are in line with each other, and going through it
/// makes the way from one to the other no longer.
pub open spec fn strictly_between(from: Square, to: Square, sq: Square) -> bool {
    &&& sq != from
    &&& sq != to
    &&& span(from, sq) + span(sq, to) == span(from, to)
    &&& (in_line(from, to) && in_line(from, sq) && in_line(sq, to)) || (on_diagonal(from, to)
        && on_diagonal(from, sq) && on_diagonal(sq, to))
}

/// Whether every square strictly between `from` and `to` is empty. Two
/// squares that share no row, column or diagonal have nothing between them.
///
/// The triggers let the solver try every square that is mentioned at all,
/// so that a piece set down anywhere is found when it stands in the way.
pub open spec fn path_clear(grid: Placement, from: Square, to: Square) -> bool {
    forall|sq: Square|
        #![trigger on_board(sq)]
        #![trigger occupied(grid, sq)]
        #![trigger strictly_between(from, to, sq)]
        strictly_between(from, to, sq) ==> !occupied(grid, sq)
}

/// The coordinate reached from `a` after `k` unit steps in the direction
/// of `b`; `a` itself when the two coincide.
pub open spec fn toward(a: int, b: int, k: int) -> int {
    if b > a {
        a + k
    } else if b < a {
        a - k
    } else {
        a
    }
}

/// The square reached after `k` steps from `from` in the direction of `to`.
/// On a common row, column or diagonal the steps before the last visit the
/// squares strictly between the two, each once.
pub open spec fn path_square(from: Square, to: Square, k: int) -> Square {
    (toward(from.0, to.0, k), toward(from.1, to.1, k))
}

/// Whether the two squares are a knight's leap apart: one step along one
/// axis and two along the other.
pub open spec fn knight_leap(from: Square, to: Square) -> bool {
    let rows = distance(from.0, to.0);
    let columns = distance(from.1, to.1);
    (rows == 1 && columns == 2) || (rows == 2 && columns == 1)
}

/// How many rows a pawn may cover in one move along its column: two from
/// row 0, one from anywhere else, whatever the pawn's color.
pub open spec fn pawn_reach(from: Square) -> int {
    if from.0 == 0 {
        2
    } else {
        1
    }
}

/// The pawn's rule. One step along a diagonal is allowed exactly onto an
/// occupied square. Any other move must stay in the pawn's column and cover
/// no more rows than `pawn_reach` allows, and every square after the source
/// up to and including the destination, counted toward higher rows, must be
/// empty. Distances are taken without regard to direction, so a move toward
/// lower rows passes over no square at all.
pub open spec fn pawn_rule(grid: Placement, from: Square, to: Square) -> bool {
    if distance(from.0, to.0) == 1 && distance(from.1, to.1) == 1 {
        occupied(grid, to)
    } else {
        &&& from.1 == to.1
        &&& distance(from.0, to.0) <= pawn_reach(from)
        &&& forall|sq: Square|
            #![trigger on_board(sq)]
            #![trigger occupied(grid, sq)]
            sq.1 == from.1 && from.0 < sq.0 <= to.0 ==> !occupied(grid, sq)
    }
}

/// Whether a piece of the given kind moves from `from` to `to`, as far as
/// its own geometry and the squares in between are concerned.
pub open spec fn moves_as(kind: Value, grid: Placement, from: Square, to: Square) -> bool {
    match kind {
        Value::King => distance(from.0, to.0) <= 1 && distance(from.1, to.1) <= 1,
        Value::Queen => (in_line(from, to) || on_diagonal(from, to)) && path_clear(grid, from, to),
        Value::Rook => in_line(from, to) && path_clear(grid, from, to),
        Value::Bishop => on_diagonal(from, to) && path_clear(grid, from, to),
        Value::Knight => knight_leap(from, to),
        Value::Pawn => pawn_rule(grid, from, to),
    }
}

/// Whether both squares hold a piece and the two pieces are of one color.
pub open spec fn same_color(grid: Placement, from: Square, to: Square) -> bool {
    &&& occupied(grid, from)
    &&& occupied(grid, to)
    &&& grid[from].color == grid[to].color
}

/// What every move needs, whatever the piece: the two squares differ, the
/// destination is on the board, a piece stands on the source, and the
/// destination holds no piece of the mover's own color.
pub open spec fn may_land(grid: Placement, from: Square, to: Square) -> bool {
    &&& from != to
    &&& on_board(to)
    &&& occupied(grid, from)
    &&& !same_color(grid, from, to)
}

/// Whether the piece on `from` may move to `to`.
pub open spec fn legal_move(grid: Placement, from: Square, to: Square) -> bool {
    may_land(grid, from, to) && moves_as(grid[from].value, grid, from, to)
}

} // verus!
