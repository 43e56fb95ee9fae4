//! Laws of movement: consequences of the rules that hold on every placement.
//!
//! Each law is a proof about `legal_move`, the predicate that
//! `Board::is_valid_move` computes and `Board::move_piece` obeys, so each
//! holds of every board as well.

use vstd::prelude::*;
use crate::model::piece::{Piece, Value};
use crate::model::rules::{
    distance, in_line, knight_leap, legal_move, may_land, occupant, occupied, on_board,
    on_diagonal, path_clear, path_square, same_color, span, strictly_between, Placement,
    Square,
};

verus! {

/// Whether a rook, a bishop or a queen stands on the square: the pieces
/// that slide along a line and are stopped by what stands in their way.
pub open spec fn slider_at(grid: Placement, sq: Square) -> bool {
    &&& occupied(grid, sq)
    &&& grid[sq].value == Value::Rook || grid[sq].value == Value::Bishop || grid[sq].value
        == Value::Queen
}

/// No piece may move to the square it stands on.
pub proof fn lemma_null_move_illegal(grid: Placement, sq: Square)
    ensures
        !legal_move(grid, sq, sq),
{
}

/// No piece may move to a square off the board.
pub proof fn lemma_destination_off_board_illegal(grid: Placement, from: Square, to: Square)
    requires
        !on_board(to),
    ensures
        !legal_move(grid, from, to),
{
}

/// Nothing moves from a square off the board, since nothing stands there.
pub proof fn lemma_source_off_board_illegal(grid: Placement, from: Square, to: Square)
    requires
        !on_board(from),
    ensures
        !legal_move(grid, from, to),
{
}

/// A move onto a piece of the mover's own color is never legal, whatever
/// the mover.
pub proof fn lemma_own_color_destination_illegal(grid: Placement, from: Square, to: Square)
    requires
        same_color(grid, from, to),
    ensures
        !legal_move(grid, from, to),
{
}

/// Walking from one square toward another on their common row, column or
/// diagonal, every step before the last lands strictly between the two.
pub proof fn lemma_path_square_between(from: Square, to: Square, k: int)
    requires
        in_line(from, to) || on_diagonal(from, to),
        0 < k < span(from, to),
    ensures
        strictly_between(from, to, path_square(from, to, k)),
        span(from, path_square(from, to, k)) == k,
        on_board(from) && on_board(to) ==> on_board(path_square(from, to, k)),
{
}

/// Every square strictly between two others is reached by walking from the
/// first toward the second, in as many steps as it is away from the first.
pub proof fn lemma_between_on_path(from: Square, to: Square, sq: Square)
    requires
        strictly_between(from, to, sq),
    ensures
        0 < span(from, sq) < span(from, to),
        sq == path_square(from, to, span(from, sq)),
{
}

/// The king moves exactly one step in any direction: onto any square that
/// it may land on at a span of at most one. Where the destination is on
/// the board and holds no piece of the king's color, that is every square
/// but its own at a span of at most one.
pub proof fn lemma_king_moves(grid: Placement, from: Square, to: Square)
    requires
        occupied(grid, from),
        grid[from].value == Value::King,
    ensures
        legal_move(grid, from, to) <==> may_land(grid, from, to) && span(from, to) <= 1,
        on_board(to) && !same_color(grid, from, to) ==> (legal_move(grid, from, to) <==> from
            != to && span(from, to) <= 1),
{
}

/// When a rook, a bishop or a queen moves legally, every square strictly
/// between its source and its destination is empty.
pub proof fn lemma_slider_path_is_empty(grid: Placement, from: Square, to: Square, sq: Square)
    requires
        slider_at(grid, from),
        legal_move(grid, from, to),
        strictly_between(from, to, sq),
    ensures
        !occupied(grid, sq),
{
}

/// A piece put on any square strictly between the source and the
/// destination stops a rook, a bishop or a queen from making the move.
pub proof fn lemma_slider_blocked(
    grid: Placement,
    from: Square,
    to: Square,
    sq: Square,
    blocker: Piece,
)
    requires
        slider_at(grid, from),
        strictly_between(from, to, sq),
    ensures
        !legal_move(grid.insert(sq, blocker), from, to),
{
    let blocked = grid.insert(sq, blocker);
    assert(blocked[from] == grid[from]);
}

/// The rook moves along rows and columns, the bishop along diagonals, the
/// queen along both, and each only over empty squares.
pub proof fn lemma_slider_moves(grid: Placement, from: Square, to: Square)
    requires
        slider_at(grid, from),
    ensures
        grid[from].value == Value::Rook ==> (legal_move(grid, from, to) <==> may_land(
            grid,
            from,
            to,
        ) && in_line(from, to) && path_clear(grid, from, to)),
        grid[from].value == Value::Bishop ==> (legal_move(grid, from, to) <==> may_land(
            grid,
            from,
            to,
        ) && on_diagonal(from, to) && path_clear(grid, from, to)),
        grid[from].value == Value::Queen ==> (legal_move(grid, from, to) <==> may_land(
            grid,
            from,
            to,
        ) && (in_line(from, to) || on_diagonal(from, to)) && path_clear(grid, from, to)),
{
}

/// The knight moves exactly by its leap: onto any square that it may land
/// on one step away along one axis and two along the other. Where the
/// destination is on the board and holds no piece of the knight's color,
/// that is every square a leap away.
pub proof fn lemma_knight_moves(grid: Placement, from: Square, to: Square)
    requires
        occupied(grid, from),
        grid[from].value == Value::Knight,
    ensures
        legal_move(grid, from, to) <==> may_land(grid, from, to) && knight_leap(from, to),
        on_board(to) && !same_color(grid, from, to) ==> (legal_move(grid, from, to)
            <==> knight_leap(from, to)),
{
}

/// Nothing but the two ends of its move matters to a knight: on two
/// placements that agree on the source and on the destination, the same
/// knight move is legal or illegal alike, whatever stands elsewhere.
pub proof fn lemma_knight_ignores_obstruction(
    grid: Placement,
    other: Placement,
    from: Square,
    to: Square,
)
    requires
        occupied(grid, from),
        grid[from].value == Value::Knight,
        occupant(other, from) == occupant(grid, from),
        occupant(other, to) == occupant(grid, to),
    ensures
        legal_move(other, from, to) == legal_move(grid, from, to),
{
}

/// A pawn on row 0 may advance two rows when the square it passes and the
/// square it reaches are both empty.
pub proof fn lemma_pawn_double_step(grid: Placement, column: int)
    requires
        occupied(grid, (0, column)),
        grid[(0, column)].value == Value::Pawn,
        !occupied(grid, (1, column)),
        !occupied(grid, (2, column)),
    ensures
        legal_move(grid, (0, column), (2, column)),
{
    assert forall|sq: Square| sq.1 == column && 0 < sq.0 <= 2 implies !#[trigger] occupied(
        grid,
        sq,
    ) by {
        assert(sq == (1int, column) || sq == (2int, column));
    }
}

/// A pawn may advance one row onto an empty square of the board.
pub proof fn lemma_pawn_single_step(grid: Placement, from: Square)
    requires
        occupied(grid, from),
        grid[from].value == Value::Pawn,
        on_board((from.0 + 1, from.1)),
        !occupied(grid, (from.0 + 1, from.1)),
    ensures
        legal_move(grid, from, (from.0 + 1, from.1)),
{
    let to: Square = (from.0 + 1, from.1);
    assert forall|sq: Square| sq.1 == to.1 && from.0 < sq.0 <= to.0 implies !#[trigger] occupied(
        grid,
        sq,
    ) by {
        assert(sq == to);
    }
}

/// Away from row 0 a pawn that stays in its column moves one row and no
/// more.
pub proof fn lemma_pawn_reach_off_row_zero(grid: Placement, from: Square, to: Square)
    requires
        occupied(grid, from),
        grid[from].value == Value::Pawn,
        from.0 != 0,
        from.1 == to.1,
        legal_move(grid, from, to),
    ensures
        distance(from.0, to.0) == 1,
{
}

/// From row 0 a pawn that stays in its column moves two rows at most.
pub proof fn lemma_pawn_reach_on_row_zero(grid: Placement, from: Square, to: Square)
    requires
        occupied(grid, from),
        grid[from].value == Value::Pawn,
        from.0 == 0,
        from.1 == to.1,
        legal_move(grid, from, to),
    ensures
        distance(from.0, to.0) <= 2,
{
}

/// A pawn never advances onto an occupied square, not even the next one,
/// nor over one.
pub proof fn lemma_pawn_advance_blocked(grid: Placement, from: Square, to: Square, row: int)
    requires
        occupied(grid, from),
        grid[from].value == Value::Pawn,
        from.1 == to.1,
        from.0 < row <= to.0,
        occupied(grid, (row, from.1)),
    ensures
        !legal_move(grid, from, to),
{
}

/// A pawn moves one step along a diagonal exactly when it captures: when
/// the destination is on the board and holds a piece of the other color.
/// Where the destination is on the board and holds no piece of the pawn's
/// color, that is whenever the destination is occupied.
pub proof fn lemma_pawn_diagonal(grid: Placement, from: Square, to: Square)
    requires
        occupied(grid, from),
        grid[from].value == Value::Pawn,
        distance(from.0, to.0) == 1,
        distance(from.1, to.1) == 1,
    ensures
        legal_move(grid, from, to) <==> on_board(to) && occupied(grid, to) && !same_color(
            grid,
            from,
            to,
        ),
        on_board(to) && !same_color(grid, from, to) ==> (legal_move(grid, from, to) <==> occupied(
            grid,
            to,
        )),
{
}

/// Every piece but the pawn captures where it moves: a move onto a piece
/// of the other color is legal exactly when the same move would be legal
/// with the destination empty.
pub proof fn lemma_capture_where_move(grid: Placement, from: Square, to: Square)
    requires
        occupied(grid, from),
        grid[from].value != Value::Pawn,
        occupied(grid, to),
        !same_color(grid, from, to),
    ensures
        legal_move(grid, from, to) == legal_move(grid.remove(to), from, to),
{
    let emptied = grid.remove(to);
    assert(emptied[from] == grid[from]);
}

} // verus!
