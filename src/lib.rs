//! Falling-block puzzle pieces: the seven tetromino kinds, their four
//! rotation states encoded as 16-bit occupancy masks, and the projection of a
//! piece onto absolute playfield cells.
pub mod piece;
pub mod piece_type;
pub mod position;

pub use piece::{DroppedPiece, Piece};
pub use piece_type::{PieceShape, PieceType};
pub use position::Position;
