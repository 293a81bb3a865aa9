//! Position state of a chess engine: a sentinel-padded mailbox board, the
//! aggregate data cached on top of it, and a reversible history of applied
//! moves.
//!
//! A [`board::Board`] starts as the position in which a game starts and is
//! changed by `apply` and `undo` only. What these two do is stated over
//! [`model::BoardView`], the state of a position as plain values; what holds
//! of them, whatever moves are applied and undone, is proved in [`laws`]:
//! undoing restores a position exactly, the border of the board keeps its
//! sentinels, and the cached counters, king squares and key are at all
//! times what a fresh scan of the board would yield.
//!
//! The library asks of a move only that it describes the board; whether
//! the move is legal chess is for move generation to know.

pub mod board;
pub mod castling;
pub mod coord;
pub mod counters;
pub mod error;
pub mod grid;
pub mod history;
pub mod laws;
pub mod model;
pub mod piece;
pub mod render;
pub mod start;
pub mod tally;
pub mod text;
pub mod transition;
pub mod zobrist;
