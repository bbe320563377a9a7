//! The position as a mathematical value, and the record that writes it.

use vstd::prelude::*;
use crate::castling::{castling_text, parse_castling, CastlingRights};
use crate::color::Color;
use crate::decimal::{decimal_text, parse_decimal};
use crate::error::{FenError, Field};
use crate::piece::Piece;
use crate::placement::{empty_cells, eight_by_eight, parse_placement, placement_text};
use crate::square::Square;
use crate::text::{join_with, split_by};

verus! {

/// What a position is, apart from how it is stored: the value that the
/// contracts of this crate speak of.
pub struct Position {
    /// The rows of the board, from the eighth rank down to the first; each
    /// row runs from file `a` to file `h`.
    pub rows: Seq<Seq<Option<Piece>>>,
    /// The side to move.
    pub active_color: Color,
    /// The castling moves still allowed.
    pub castling: CastlingRights,
    /// The square that a pawn has just passed over, if one has.
    pub en_passant_target: Option<Square>,
    /// The number of half-moves since a capture or a pawn move.
    pub half_move_clock: nat,
    /// The number of the move to come, which starts at 1.
    pub full_move_number: nat,
}

/// The greatest half-move clock that a record can hold.
pub open spec fn half_move_clock_limit() -> int {
    u8::MAX as int
}

/// The greatest full-move number that a record can hold.
pub open spec fn full_move_number_limit() -> int {
    u16::MAX as int
}

/// The text of an en-passant target: the name of the square, or a dash.
pub open spec fn en_passant_text(target: Option<Square>) -> Seq<char> {
    match target {
        Some(square) => square.token(),
        None => seq!['-'],
    }
}

/// The en-passant target that `s` names, if it names one: a dash for none,
/// otherwise the name of a square, on whatever rank.
pub open spec fn parse_en_passant(s: Seq<char>) -> Option<Option<Square>> {
    if s == seq!['-'] {
        Some(None)
    } else {
        match Square::parse(s) {
            Some(square) => Some(Some(square)),
            None => None,
        }
    }
}

/// The full-move number that ends a record, given the fields from the sixth
/// on. There must be exactly one, a decimal number from 1 up to the limit:
/// a seventh field spoils the sixth.
pub open spec fn parse_full_move_number(last: Seq<Seq<char>>) -> Option<int> {
    if last.len() == 1 {
        match parse_decimal(last[0], full_move_number_limit()) {
            Some(n) => if n >= 1 {
                Some(n)
            } else {
                None
            },
            None => None,
        }
    } else {
        None
    }
}

/// The fields of a record: the pieces into which its spaces cut it. The
/// empty record has no field at all.
pub open spec fn record_fields(text: Seq<char>) -> Seq<Seq<char>> {
    if text.len() == 0 {
        Seq::<Seq<char>>::empty()
    } else {
        split_by(text, ' ')
    }
}

/// The record of the position from which every game starts.
pub const INITIAL_RECORD: &'static str = "rnbqkbnr/pppppppp/8/8/8/8/PPPPPPPP/RNBQKBNR w KQkq - 0 1";

/// The rank on which the pieces of `color` other than the pawns start,
/// from file `a` to file `h`.
pub open spec fn back_rank(color: Color) -> Seq<Option<Piece>> {
    seq![
        Some(Piece::Rook(color)),
        Some(Piece::Knight(color)),
        Some(Piece::Bishop(color)),
        Some(Piece::Queen(color)),
        Some(Piece::King(color)),
        Some(Piece::Bishop(color)),
        Some(Piece::Knight(color)),
        Some(Piece::Rook(color)),
    ]
}

/// The rank on which the pawns of `color` start.
pub open spec fn pawn_rank(color: Color) -> Seq<Option<Piece>> {
    Seq::new(8, |file: int| Some(Piece::Pawn(color)))
}

impl Position {
    /// The position from which every game starts: the pieces on their home
    /// squares, White to move, every castling right in force, no en-passant
    /// target, no half-move counted and the first move to come.
    pub open spec fn initial() -> Position {
        Position {
            rows: seq![
                back_rank(Color::Black),
                pawn_rank(Color::Black),
                empty_cells(8),
                empty_cells(8),
                empty_cells(8),
                empty_cells(8),
                pawn_rank(Color::White),
                back_rank(Color::White),
            ],
            active_color: Color::White,
            castling: CastlingRights {
                white_kingside: true,
                white_queenside: true,
                black_kingside: true,
                black_queenside: true,
            },
            en_passant_target: None,
            half_move_clock: 0,
            full_move_number: 1,
        }
    }

    /// Whether this position can be written and read back: its board is
    /// eight by eight, its half-move clock is within the limit and its
    /// full-move number is from 1 up to the limit.
    pub open spec fn well_formed(self) -> bool {
        &&& eight_by_eight(self.rows)
        &&& self.half_move_clock <= half_move_clock_limit()
        &&& 1 <= self.full_move_number <= full_move_number_limit()
    }

    /// The six fields of the record of this position.
    pub open spec fn fields(self) -> Seq<Seq<char>> {
        seq![
            placement_text(self.rows),
            self.active_color.token(),
            castling_text(self.castling),
            en_passant_text(self.en_passant_target),
            decimal_text(self.half_move_clock),
            decimal_text(self.full_move_number),
        ]
    }

    /// The record of this position: its six fields, joined by single spaces.
    pub open spec fn record(self) -> Seq<char> {
        join_with(self.fields(), ' ')
    }

    /// The position that the record `text` describes, or why it describes
    /// none.
    ///
    /// A record with fewer than six fields is malformed, and the error names
    /// the first field that is missing; no field is looked at then. Otherwise
    /// the fields are read in order, and the first that cannot be read
    /// decides the error.
    pub open spec fn parse(text: Seq<char>) -> Result<Position, FenError> {
        let fields = record_fields(text);
        if fields.len() < 6 {
            Err(FenError::MalformedRecord(Field::nth(fields.len() as int)))
        } else {
            match parse_placement(fields[0]) {
                Err(e) => Err(e),
                Ok(rows) => match Color::parse(fields[1]) {
                    None => Err(FenError::InvalidActiveColor),
                    Some(active_color) => match parse_castling(fields[2]) {
                        None => Err(FenError::InvalidCastlingToken),
                        Some(castling) => match parse_en_passant(fields[3]) {
                            None => Err(FenError::InvalidEnPassantSquare),
                            Some(en_passant_target) => match parse_decimal(
                                fields[4],
                                half_move_clock_limit(),
                            ) {
                                None => Err(FenError::InvalidHalfMoveClock),
                                Some(half_move_clock) => match parse_full_move_number(
                                    fields.skip(5),
                                ) {
                                    None => Err(FenError::InvalidFullMoveNumber),
                                    Some(full_move_number) => Ok(
                                        Position {
                                            rows,
                                            active_color,
                                            castling,
                                            en_passant_target,
                                            half_move_clock: half_move_clock as nat,
                                            full_move_number: full_move_number as nat,
                                        },
                                    ),
                                },
                            },
                        },
                    },
                },
            }
        }
    }
}

} // verus!
