//! A codec for six-field chess position records.
//!
//! A record such as
//! `rnbqkbnr/pppppppp/8/8/8/8/PPPPPPPP/RNBQKBNR w KQkq - 0 1`
//! names the piece placement, the side to move, the castling rights, the
//! en-passant target and the two move counters of a position.
//! [`Game::from_fen`] reads a record and says of every malformed one which
//! field is at fault; [`Game::to_fen`] writes the one canonical record of a
//! position. What a record means is defined over sequences of characters in
//! [`position`], both directions are proved against that definition, and
//! [`laws`] states how they relate.
//!
//! The codec checks structure only. It knows nothing of legal moves.

pub mod error;
pub mod text;
pub mod decimal;
pub mod color;
pub mod square;
pub mod piece;
pub mod placement;
pub mod castling;
pub mod position;
pub mod laws;
pub mod game;
pub mod engine;

pub use castling::CastlingRights;
pub use color::Color;
pub use engine::Engine;
pub use error::{FenError, Field, InvalidToken};
pub use game::Game;
pub use piece::Piece;
pub use position::Position;
pub use square::Square;
