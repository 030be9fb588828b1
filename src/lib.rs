//! A verified rules engine for a 3x3 tic-tac-toe board: squares, tokens,
//! immutable positions, move application and winner detection.

pub mod position;
pub mod square;
pub mod token;

pub use position::{apply_move, winner, Position, PositionError};
pub use square::{square_to_index, Square};
pub use token::Token;
