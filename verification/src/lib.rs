//! Rules engine for a small two-player chess variant played on an 8x8 board.
//!
//! The engine decides whether a proposed move is legal, resolves captures,
//! detects the game-ending king capture, and advances the turn.  It holds no
//! notion of check or checkmate, castling, en passant, promotion, or draws:
//! the rule set is exactly the one implemented here and nothing more.
//!
//! The engine is a plain value type driven synchronously by click events that
//! some host (a renderer, a terminal front end) resolves to board squares.

pub mod pieces;
pub mod board;

pub use board::{GameEngine, SelectionState, Square, TurnEvent};
pub use pieces::{Piece, PieceColor, PieceType};
