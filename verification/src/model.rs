//! The pieces, the board they stand on, and the players who move them.

pub mod board;
pub mod laws;
pub mod piece;
pub mod player;
pub mod rules;
