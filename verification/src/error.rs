//! What can go wrong when text is decoded.

use vstd::prelude::*;

verus! {

/// The six fields of a position record, in the order in which they are written.
#[derive(Clone, Copy, Debug, PartialEq, Eq, Structural)]
pub enum Field {
    PiecePlacement,
    ActiveColor,
    CastlingAvailability,
    EnPassantTarget,
    HalfMoveClock,
    FullMoveNumber,
}

impl Field {
    /// The field written at position `index` of a record, counting from zero.
    /// Every index past the last field stands for the last field.
    pub open spec fn nth(index: int) -> Field {
        if index <= 0 {
            Field::PiecePlacement
        } else if index == 1 {
            Field::ActiveColor
        } else if index == 2 {
            Field::CastlingAvailability
        } else if index == 3 {
            Field::EnPassantTarget
        } else if index == 4 {
            Field::HalfMoveClock
        } else {
            Field::FullMoveNumber
        }
    }

    /// The position of this field in a record, counting from zero.
    pub open spec fn position(self) -> int {
        match self {
            Field::PiecePlacement => 0,
            Field::ActiveColor => 1,
            Field::CastlingAvailability => 2,
            Field::EnPassantTarget => 3,
            Field::HalfMoveClock => 4,
            Field::FullMoveNumber => 5,
        }
    }

    /// The field at position `index`, as [`Field::nth`] defines it.
    pub fn at(index: usize) -> (field: Field)
        ensures
            field == Field::nth(index as int),
            index < 6 ==> field.position() == index,
    {
        if index == 0 {
            Field::PiecePlacement
        } else if index == 1 {
            Field::ActiveColor
        } else if index == 2 {
            Field::CastlingAvailability
        } else if index == 3 {
            Field::EnPassantTarget
        } else if index == 4 {
            Field::HalfMoveClock
        } else {
            Field::FullMoveNumber
        }
    }
}

/// Why a position record was rejected. Each variant names the field at fault.
#[derive(Clone, Copy, Debug, PartialEq, Eq, Structural)]
pub enum FenError {
    /// The record has fewer than six fields; the payload is the first one missing.
    MalformedRecord(Field),
    /// The piece placement does not consist of exactly eight ranks.
    RankCountMismatch,
    /// A rank of the piece placement does not describe exactly eight files.
    RankLengthMismatch,
    /// A rank of the piece placement holds a character that is neither a piece
    /// letter nor a digit from `1` to `8`.
    InvalidPieceToken,
    /// The active color is neither `w` nor `b`.
    InvalidActiveColor,
    /// The castling availability is neither `-` nor letters of `KQkq` in that order.
    InvalidCastlingToken,
    /// The en-passant target is neither `-` nor the name of a square.
    InvalidEnPassantSquare,
    /// The half-move clock is not a decimal number that fits its counter.
    InvalidHalfMoveClock,
    /// The full-move number is not a positive decimal number that fits its counter.
    InvalidFullMoveNumber,
}

impl FenError {
    /// The field that this error is about.
    pub open spec fn subject(self) -> Field {
        match self {
            FenError::MalformedRecord(field) => field,
            FenError::RankCountMismatch => Field::PiecePlacement,
            FenError::RankLengthMismatch => Field::PiecePlacement,
            FenError::InvalidPieceToken => Field::PiecePlacement,
            FenError::InvalidActiveColor => Field::ActiveColor,
            FenError::InvalidCastlingToken => Field::CastlingAvailability,
            FenError::InvalidEnPassantSquare => Field::EnPassantTarget,
            FenError::InvalidHalfMoveClock => Field::HalfMoveClock,
            FenError::InvalidFullMoveNumber => Field::FullMoveNumber,
        }
    }

    /// The field that this error is about: the missing one for a malformed
    /// record, the one that could not be read for every other error.
    pub fn field(&self) -> (field: Field)
        ensures
            field == self.subject(),
    {
        match self {
            FenError::MalformedRecord(field) => *field,
            FenError::RankCountMismatch => Field::PiecePlacement,
            FenError::RankLengthMismatch => Field::PiecePlacement,
            FenError::InvalidPieceToken => Field::PiecePlacement,
            FenError::InvalidActiveColor => Field::ActiveColor,
            FenError::InvalidCastlingToken => Field::CastlingAvailability,
            FenError::InvalidEnPassantSquare => Field::EnPassantTarget,
            FenError::InvalidHalfMoveClock => Field::HalfMoveClock,
            FenError::InvalidFullMoveNumber => Field::FullMoveNumber,
        }
    }
}

/// A token that names no color, no piece or no square.
#[derive(Clone, Copy, Debug, PartialEq, Eq, Structural)]
pub struct InvalidToken;

} // verus!
