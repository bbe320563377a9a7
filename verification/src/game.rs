//! The position as it is stored, read and written.

use vstd::prelude::*;
use vstd::string::StringExecFns;
use crate::castling::{castling_string, castling_text, read_castling, CastlingRights};
use crate::color::Color;
use crate::decimal::{decimal_string, read_decimal};
use crate::error::{FenError, Field};
use crate::laws::{lemma_initial_record, lemma_write_then_read};
use crate::piece::Piece;
use crate::placement::{
    board_rows, empty_cells, parse_placement, placement_text, read_placement, write_placement,
};
use crate::position::{
    back_rank, en_passant_text, parse_en_passant, pawn_rank, Position, INITIAL_RECORD,
};
use crate::square::Square;
use crate::text::{lemma_join_push, lemma_split_nonempty, split, to_chars};

verus! {

/// A position: the board and what a record says beside it.
///
/// The first row of `board` is the eighth rank and the last row the first
/// rank; within a row, the first cell is on file `a`.
#[derive(Clone, Debug, PartialEq, Eq)]
pub struct Game {
    pub board: [[Option<Piece>; 8]; 8],
    pub active_color: Color,
    pub white_can_castle_kingside: bool,
    pub white_can_castle_queenside: bool,
    pub black_can_castle_kingside: bool,
    pub black_can_castle_queenside: bool,
    pub en_passant_target: Option<Square>,
    pub half_move_clock: u8,
    pub full_move_number: u16,
}

impl View for Game {
    type V = Position;

    open spec fn view(&self) -> Position {
        Position {
            rows: board_rows(self.board),
            active_color: self.active_color,
            castling: CastlingRights {
                white_kingside: self.white_can_castle_kingside,
                white_queenside: self.white_can_castle_queenside,
                black_kingside: self.black_can_castle_kingside,
                black_queenside: self.black_can_castle_queenside,
            },
            en_passant_target: self.en_passant_target,
            half_move_clock: self.half_move_clock as nat,
            full_move_number: self.full_move_number as nat,
        }
    }
}

/// Reads an en-passant target.
fn read_en_passant(text: &Vec<char>) -> (target: Option<Option<Square>>)
    ensures
        target == parse_en_passant(text@),
{
    if text.len() == 1 && text[0] == '-' {
        assert(text@ =~= seq!['-']);
        Some(None)
    } else {
        match Square::from_chars(text) {
            Ok(square) => Some(Some(square)),
            Err(_) => None,
        }
    }
}

impl Game {
    /// Whether this position has a full-move number of at least 1, as every
    /// position read from a record has. The stored board is always eight by
    /// eight and the stored counters are always within their limits.
    pub open spec fn well_formed(&self) -> bool {
        self.full_move_number >= 1
    }

    /// A well-formed stored position is a well-formed position.
    pub proof fn lemma_view_well_formed(&self)
        requires
            self.well_formed(),
        ensures
            self@.well_formed(),
    {
    }

    /// The four castling rights of this position.
    pub fn castling_rights(&self) -> (rights: CastlingRights)
        ensures
            rights == self@.castling,
    {
        CastlingRights {
            white_kingside: self.white_can_castle_kingside,
            white_queenside: self.white_can_castle_queenside,
            black_kingside: self.black_can_castle_kingside,
            black_queenside: self.black_can_castle_queenside,
        }
    }

    /// What stands on `square`. The board is stored from the eighth rank
    /// down while squares count from the first rank up; the row is turned
    /// round here.
    pub fn piece_at(&self, square: Square) -> (piece: Option<Piece>)
        ensures
            piece == self@.rows[square.row()][square.column()],
    {
        let index = square.to_index();
        let row = (7 - index / 8) as usize;
        let column = (index % 8) as usize;
        self.board[row][column]
    }

    /// Reads a position from its record.
    ///
    /// The record is six fields separated by single spaces: piece placement,
    /// active color, castling availability, en-passant target, half-move
    /// clock and full-move number. A record with fewer fields is malformed;
    /// otherwise the first field that cannot be read decides the error, as
    /// [`Position::parse`] says. Only the structure is checked: any eight by
    /// eight arrangement of pieces is accepted.
    ///
    /// A position that was read is well formed, and its own record describes
    /// it again.
    pub fn from_fen(fen: &str) -> (r: Result<Game, FenError>)
        ensures
            match Position::parse(fen@) {
                Ok(p) => r is Ok && r.unwrap()@ == p,
                Err(e) => r == Err::<Game, FenError>(e),
            },
            r is Ok ==> r.unwrap().well_formed() && Position::parse(r.unwrap()@.record()) == Ok::<
                Position,
                FenError,
            >(r.unwrap()@),
    {
        let text = to_chars(fen);
        if text.len() == 0 {
            return Err(FenError::MalformedRecord(Field::PiecePlacement));
        }
        let fields = split(&text, ' ');
        proof {
            lemma_split_nonempty(text@, ' ');
        }
        if fields.len() < 6 {
            return Err(FenError::MalformedRecord(Field::at(fields.len())));
        }
        let board = match read_placement(&fields[0]) {
            Ok(board) => board,
            Err(e) => {
                return Err(e);
            },
        };
        let active_color = match Color::from_chars(&fields[1]) {
            Ok(color) => color,
            Err(_) => {
                return Err(FenError::InvalidActiveColor);
            },
        };
        let castling = match read_castling(&fields[2]) {
            Some(rights) => rights,
            None => {
                return Err(FenError::InvalidCastlingToken);
            },
        };
        let en_passant_target = match read_en_passant(&fields[3]) {
            Some(target) => target,
            None => {
                return Err(FenError::InvalidEnPassantSquare);
            },
        };
        let half_move_clock = match read_decimal(&fields[4], u8::MAX as u32) {
            Some(n) => n as u8,
            None => {
                return Err(FenError::InvalidHalfMoveClock);
            },
        };
        if fields.len() > 6 {
            return Err(FenError::InvalidFullMoveNumber);
        }
        let full_move_number = match read_decimal(&fields[5], u16::MAX as u32) {
            Some(n) => n as u16,
            None => {
                return Err(FenError::InvalidFullMoveNumber);
            },
        };
        if full_move_number == 0 {
            return Err(FenError::InvalidFullMoveNumber);
        }
        let game = Game {
            board,
            active_color,
            white_can_castle_kingside: castling.white_kingside,
            white_can_castle_queenside: castling.white_queenside,
            black_can_castle_kingside: castling.black_kingside,
            black_can_castle_queenside: castling.black_queenside,
            en_passant_target,
            half_move_clock,
            full_move_number,
        };
        proof {
            lemma_write_then_read(game@);
        }
        Ok(game)
    }

    /// Writes the record of this position: the piece placement, the active
    /// color, the castling availability, the en-passant target, the
    /// half-move clock and the full-move number, joined by single spaces.
    pub fn to_fen(&self) -> (record: String)
        ensures
            record@ == self@.record(),
    {
        let pieces = self.board_to_piece_string();
        let active_color = self.active_color.to_string();
        let castleable = self.castleable_to_string();
        let en_passant_square = match self.en_passant_target {
            Some(square) => square.to_string(),
            None => {
                proof {
                    reveal_strlit("-");
                }
                "-".to_owned()
            },
        };
        let half_move = decimal_string(self.half_move_clock as u32);
        let full_move = decimal_string(self.full_move_number as u32);
        proof {
            reveal_strlit(" ");
            let f1 = seq![pieces@];
            let f2 = f1.push(active_color@);
            let f3 = f2.push(castleable@);
            let f4 = f3.push(en_passant_square@);
            let f5 = f4.push(half_move@);
            lemma_join_push(f1, active_color@, ' ');
            lemma_join_push(f2, castleable@, ' ');
            lemma_join_push(f3, en_passant_square@, ' ');
            lemma_join_push(f4, half_move@, ' ');
            lemma_join_push(f5, full_move@, ' ');
            assert(en_passant_square@ == en_passant_text(self.en_passant_target));
            assert(f5.push(full_move@) =~= self@.fields());
        }
        let mut record = pieces;
        record.append(" ");
        record.append(active_color.as_str());
        record.append(" ");
        record.append(castleable.as_str());
        record.append(" ");
        record.append(en_passant_square.as_str());
        record.append(" ");
        record.append(half_move.as_str());
        record.append(" ");
        record.append(full_move.as_str());
        record
    }

    /// Applies no move. Telling a legal move from an illegal one takes the
    /// rules of the game, which this codec does not hold; so every request
    /// is refused and the position stays as it is.
    pub fn make_move(&mut self, from: Square, to: Square) -> (accepted: bool)
        ensures
            !accepted,
            *final(self) == *old(self),
    {
        false
    }

    /// Reads the board from a piece placement: eight ranks separated by
    /// slashes, from the eighth rank down to the first. In a rank a piece
    /// letter fills the next cell and a digit from `1` to `8` leaves that many
    /// cells empty; the cells of a rank must number exactly eight.
    pub fn assemble_board(placement: &str) -> (r: Result<[[Option<Piece>; 8]; 8], FenError>)
        ensures
            match parse_placement(placement@) {
                Ok(rows) => r is Ok && board_rows(r.unwrap()) == rows,
                Err(e) => r == Err::<[[Option<Piece>; 8]; 8], FenError>(e),
            },
    {
        let text = to_chars(placement);
        read_placement(&text)
    }

    /// Writes the piece placement of the board: for each row from the eighth
    /// rank down to the first, the letters of its pieces and the lengths of
    /// its runs of empty cells; slashes separate the rows.
    pub fn board_to_piece_string(&self) -> (pieces: String)
        ensures
            pieces@ == placement_text(self@.rows),
    {
        let mut pieces = String::new();
        write_placement(&mut pieces, &self.board);
        pieces
    }

    /// Writes the castling availability: the letters of the rights that
    /// hold, in the order `K`, `Q`, `k`, `q`, or a dash if none holds.
    pub fn castleable_to_string(&self) -> (castleable: String)
        ensures
            castleable@ == castling_text(self@.castling),
            !self.white_can_castle_kingside && !self.white_can_castle_queenside
                && !self.black_can_castle_kingside && !self.black_can_castle_queenside
                ==> castleable@ == seq!['-'],
    {
        castling_string(self.castling_rights())
    }
}

/// The rank on which the pieces of `color` other than the pawns start.
fn back_row(color: Color) -> (row: [Option<Piece>; 8])
    ensures
        row@ == back_rank(color),
{
    [
        Some(Piece::Rook(color)),
        Some(Piece::Knight(color)),
        Some(Piece::Bishop(color)),
        Some(Piece::Queen(color)),
        Some(Piece::King(color)),
        Some(Piece::Bishop(color)),
        Some(Piece::Knight(color)),
        Some(Piece::Rook(color)),
    ]
}

impl Default for Game {
    /// The position from which every game starts.
    fn default() -> (game: Game)
        ensures
            game@ == Position::initial(),
            game@.record() == INITIAL_RECORD@,
            game.well_formed(),
    {
        let empty: [Option<Piece>; 8] = [None; 8];
        let black_pawns: [Option<Piece>; 8] = [Some(Piece::Pawn(Color::Black)); 8];
        let white_pawns: [Option<Piece>; 8] = [Some(Piece::Pawn(Color::White)); 8];
        let game = Game {
            board: [
                back_row(Color::Black),
                black_pawns,
                empty,
                empty,
                empty,
                empty,
                white_pawns,
                back_row(Color::White),
            ],
            active_color: Color::White,
            white_can_castle_kingside: true,
            white_can_castle_queenside: true,
            black_can_castle_kingside: true,
            black_can_castle_queenside: true,
            en_passant_target: None,
            half_move_clock: 0,
            full_move_number: 1,
        };
        proof {
            assert(empty@ =~= empty_cells(8));
            assert(black_pawns@ =~= pawn_rank(Color::Black));
            assert(white_pawns@ =~= pawn_rank(Color::White));
            assert(game@.rows =~= Position::initial().rows);
            lemma_initial_record();
        }
        game
    }
}

} // verus!
