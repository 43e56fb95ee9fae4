//! Piece identity: a color and a kind.

use vstd::prelude::*;

verus! {

/// The side a piece belongs to.
#[derive(Copy, Clone, Debug, PartialEq, Eq, Structural)]
pub enum Color {
    White,
    Black,
}

/// The kind of a piece, which selects the rule it moves by.
#[derive(Copy, Clone, Debug, PartialEq, Eq, Structural)]
pub enum Value {
    King,
    Queen,
    Rook,
    Bishop,
    Knight,
    Pawn,
}

/// A piece: a color together with a kind. Pieces are plain values; two are
/// equal exactly when both parts agree.
#[derive(Copy, Clone, Debug, PartialEq, Eq, Structural)]
pub struct Piece {
    pub color: Color,
    pub value: Value,
}

/// The text that shows a piece: the chess symbol of its color and kind.
/// The black pawn's symbol is followed by the selector that asks for its
/// text form, so its text is two characters long; every other is one.
pub open spec fn glyph_of(piece: Piece) -> Seq<char> {
    match piece.color {
        Color::White => match piece.value {
            Value::King => "\u{2654}"@,
            Value::Queen => "\u{2655}"@,
            Value::Rook => "\u{2656}"@,
            Value::Bishop => "\u{2657}"@,
            Value::Knight => "\u{2658}"@,
            Value::Pawn => "\u{2659}"@,
        },
        Color::Black => match piece.value {
            Value::King => "\u{265A}"@,
            Value::Queen => "\u{265B}"@,
            Value::Rook => "\u{265C}"@,
            Value::Bishop => "\u{265D}"@,
            Value::Knight => "\u{265E}"@,
            Value::Pawn => "\u{265F}\u{FE0E}"@,
        },
    }
}

impl Piece {
    /// Makes the piece of the given color and kind.
    pub fn new(color: Color, value: Value) -> (piece: Piece)
        ensures
            piece == (Piece { color, value }),
    {
        Piece { color, value }
    }

    /// The text that shows the piece.
    pub fn glyph(&self) -> (text: &'static str)
        ensures
            text@ == glyph_of(*self),
    {
        match self.color {
            Color::White => match self.value {
                Value::King => "\u{2654}",
                Value::Queen => "\u{2655}",
                Value::Rook => "\u{2656}",
                Value::Bishop => "\u{2657}",
                Value::Knight => "\u{2658}",
                Value::Pawn => "\u{2659}",
            },
            Color::Black => match self.value {
                Value::King => "\u{265A}",
                Value::Queen => "\u{265B}",
                Value::Rook => "\u{265C}",
                Value::Bishop => "\u{265D}",
                Value::Knight => "\u{265E}",
                Value::Pawn => "\u{265F}\u{FE0E}",
            },
        }
    }
}

/// Distinct pieces show as distinct texts. Each text is one character
/// long, but for the black pawn's, which is two.
pub proof fn lemma_glyphs_distinct(a: Piece, b: Piece)
    ensures
        glyph_of(a).len() == if a.color == Color::Black && a.value == Value::Pawn {
            2nat
        } else {
            1nat
        },
        glyph_of(a) == glyph_of(b) ==> a == b,
{
    reveal_strlit("\u{2654}");
    reveal_strlit("\u{2655}");
    reveal_strlit("\u{2656}");
    reveal_strlit("\u{2657}");
    reveal_strlit("\u{2658}");
    reveal_strlit("\u{2659}");
    reveal_strlit("\u{265A}");
    reveal_strlit("\u{265B}");
    reveal_strlit("\u{265C}");
    reveal_strlit("\u{265D}");
    reveal_strlit("\u{265E}");
    reveal_strlit("\u{265F}\u{FE0E}");
    if glyph_of(a) == glyph_of(b) {
        assert(glyph_of(a)[0] == glyph_of(b)[0]);
    }
}

} // verus!
