//! A rules engine for standard chess: board state, move patterns, special
//! moves, check detection and move application, with machine-checked contracts.

pub mod board;
pub mod coord;
pub mod laws;
pub mod notation;
pub mod patterns;
pub mod piece;
pub mod play;
pub mod position;
pub mod rules;

pub use board::Board;
pub use coord::Coord;
pub use piece::{Color, Piece, PieceKind};
pub use position::{Position, Status};
