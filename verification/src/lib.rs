//! A chessboard and the rules that decide whether a piece may move from one
//! square to another, given only where the pieces currently stand.

pub mod model;
