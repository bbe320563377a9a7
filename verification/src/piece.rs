//! The twelve pieces and their letters.

use vstd::prelude::*;
use crate::color::Color;
use crate::error::InvalidToken;
use crate::text::to_chars;

verus! {

/// A piece: its kind, and the side it belongs to.
#[derive(Clone, Copy, Debug, PartialEq, Eq, Structural)]
pub enum Piece {
    Pawn(Color),
    Knight(Color),
    Bishop(Color),
    Rook(Color),
    Queen(Color),
    King(Color),
}

impl Piece {
    /// The side this piece belongs to.
    pub open spec fn color(self) -> Color {
        match self {
            Piece::Pawn(color) => color,
            Piece::Knight(color) => color,
            Piece::Bishop(color) => color,
            Piece::Rook(color) => color,
            Piece::Queen(color) => color,
            Piece::King(color) => color,
        }
    }

    /// The letter of this piece: one of `PNBRQK` for White, one of `pnbrqk`
    /// for Black.
    pub open spec fn letter(self) -> char {
        match self {
            Piece::Pawn(Color::White) => 'P',
            Piece::Knight(Color::White) => 'N',
            Piece::Bishop(Color::White) => 'B',
            Piece::Rook(Color::White) => 'R',
            Piece::Queen(Color::White) => 'Q',
            Piece::King(Color::White) => 'K',
            Piece::Pawn(Color::Black) => 'p',
            Piece::Knight(Color::Black) => 'n',
            Piece::Bishop(Color::Black) => 'b',
            Piece::Rook(Color::Black) => 'r',
            Piece::Queen(Color::Black) => 'q',
            Piece::King(Color::Black) => 'k',
        }
    }

    /// The piece that the letter `c` names, if it names one.
    pub open spec fn of_letter(c: char) -> Option<Piece> {
        if c == 'P' {
            Some(Piece::Pawn(Color::White))
        } else if c == 'N' {
            Some(Piece::Knight(Color::White))
        } else if c == 'B' {
            Some(Piece::Bishop(Color::White))
        } else if c == 'R' {
            Some(Piece::Rook(Color::White))
        } else if c == 'Q' {
            Some(Piece::Queen(Color::White))
        } else if c == 'K' {
            Some(Piece::King(Color::White))
        } else if c == 'p' {
            Some(Piece::Pawn(Color::Black))
        } else if c == 'n' {
            Some(Piece::Knight(Color::Black))
        } else if c == 'b' {
            Some(Piece::Bishop(Color::Black))
        } else if c == 'r' {
            Some(Piece::Rook(Color::Black))
        } else if c == 'q' {
            Some(Piece::Queen(Color::Black))
        } else if c == 'k' {
            Some(Piece::King(Color::Black))
        } else {
            None
        }
    }

    /// The token that names this piece: its letter alone.
    pub open spec fn token(self) -> Seq<char> {
        seq![self.letter()]
    }

    /// The piece that `text` names, if it names one.
    pub open spec fn parse(text: Seq<char>) -> Option<Piece> {
        if text.len() == 1 {
            Piece::of_letter(text[0])
        } else {
            None
        }
    }

    /// The letter of this piece.
    pub fn to_char(&self) -> (c: char)
        ensures
            c == self.letter(),
    {
        match self {
            Piece::Pawn(Color::White) => 'P',
            Piece::Knight(Color::White) => 'N',
            Piece::Bishop(Color::White) => 'B',
            Piece::Rook(Color::White) => 'R',
            Piece::Queen(Color::White) => 'Q',
            Piece::King(Color::White) => 'K',
            Piece::Pawn(Color::Black) => 'p',
            Piece::Knight(Color::Black) => 'n',
            Piece::Bishop(Color::Black) => 'b',
            Piece::Rook(Color::Black) => 'r',
            Piece::Queen(Color::Black) => 'q',
            Piece::King(Color::Black) => 'k',
        }
    }

    /// The letter of this piece as a one-character text.
    pub fn as_str(&self) -> (s: &'static str)
        ensures
            s@ == self.token(),
    {
        match self {
            Piece::Pawn(Color::White) => {
                proof {
                    reveal_strlit("P");
                }
                "P"
            },
            Piece::Knight(Color::White) => {
                proof {
                    reveal_strlit("N");
                }
                "N"
            },
            Piece::Bishop(Color::White) => {
                proof {
                    reveal_strlit("B");
                }
                "B"
            },
            Piece::Rook(Color::White) => {
                proof {
                    reveal_strlit("R");
                }
                "R"
            },
            Piece::Queen(Color::White) => {
                proof {
                    reveal_strlit("Q");
                }
                "Q"
            },
            Piece::King(Color::White) => {
                proof {
                    reveal_strlit("K");
                }
                "K"
            },
            Piece::Pawn(Color::Black) => {
                proof {
                    reveal_strlit("p");
                }
                "p"
            },
            Piece::Knight(Color::Black) => {
                proof {
                    reveal_strlit("n");
                }
                "n"
            },
            Piece::Bishop(Color::Black) => {
                proof {
                    reveal_strlit("b");
                }
                "b"
            },
            Piece::Rook(Color::Black) => {
                proof {
                    reveal_strlit("r");
                }
                "r"
            },
            Piece::Queen(Color::Black) => {
                proof {
                    reveal_strlit("q");
                }
                "q"
            },
            Piece::King(Color::Black) => {
                proof {
                    reveal_strlit("k");
                }
                "k"
            },
        }
    }

    /// Writes the token of this piece.
    pub fn to_string(&self) -> (s: String)
        ensures
            s@ == self.token(),
    {
        self.as_str().to_owned()
    }

    /// Reads a piece from its letter. Every character that is not one of the
    /// twelve letters is refused.
    pub fn from_char(piece: char) -> (r: Result<Piece, InvalidToken>)
        ensures
            r == match Piece::of_letter(piece) {
                Some(p) => Ok::<Piece, InvalidToken>(p),
                None => Err(InvalidToken),
            },
    {
        match piece {
            'P' => Ok(Piece::Pawn(Color::White)),
            'N' => Ok(Piece::Knight(Color::White)),
            'B' => Ok(Piece::Bishop(Color::White)),
            'R' => Ok(Piece::Rook(Color::White)),
            'Q' => Ok(Piece::Queen(Color::White)),
            'K' => Ok(Piece::King(Color::White)),
            'p' => Ok(Piece::Pawn(Color::Black)),
            'n' => Ok(Piece::Knight(Color::Black)),
            'b' => Ok(Piece::Bishop(Color::Black)),
            'r' => Ok(Piece::Rook(Color::Black)),
            'q' => Ok(Piece::Queen(Color::Black)),
            'k' => Ok(Piece::King(Color::Black)),
            _ => Err(InvalidToken),
        }
    }

    /// Reads a piece from its token. Every text but the twelve letters is refused.
    pub fn from_str(s: &str) -> (r: Result<Piece, InvalidToken>)
        ensures
            r == match Piece::parse(s@) {
                Some(p) => Ok::<Piece, InvalidToken>(p),
                None => Err(InvalidToken),
            },
    {
        let text = to_chars(s);
        if text.len() != 1 {
            return Err(InvalidToken);
        }
        Piece::from_char(text[0])
    }

    /// Reading the letter of a piece gives that piece back. White pieces have
    /// upper-case letters and black pieces lower-case ones.
    pub proof fn lemma_letter_round_trip(self)
        ensures
            Piece::of_letter(self.letter()) == Some(self),
            Piece::parse(self.token()) == Some(self),
            self.color() == Color::White <==> 'A' <= self.letter() <= 'Z',
            self.color() == Color::Black <==> 'a' <= self.letter() <= 'z',
    {
    }

    /// A letter that names a piece is the letter of that piece.
    pub proof fn lemma_of_letter_is_letter(c: char)
        requires
            Piece::of_letter(c) is Some,
        ensures
            Piece::of_letter(c).unwrap().letter() == c,
    {
    }
}

} // verus!
