//! The two sides.

use vstd::prelude::*;
use crate::error::InvalidToken;
use crate::text::to_chars;

verus! {

/// A side of the game.
#[derive(Clone, Copy, Debug, PartialEq, Eq, Structural)]
pub enum Color {
    White,
    Black,
}

impl Color {
    /// The token that names this color: `w` or `b`.
    pub open spec fn token(self) -> Seq<char> {
        match self {
            Color::White => seq!['w'],
            Color::Black => seq!['b'],
        }
    }

    /// The color that `text` names, if it names one.
    pub open spec fn parse(text: Seq<char>) -> Option<Color> {
        if text == seq!['w'] {
            Some(Color::White)
        } else if text == seq!['b'] {
            Some(Color::Black)
        } else {
            None
        }
    }

    /// Writes the token of this color.
    pub fn to_string(&self) -> (s: String)
        ensures
            s@ == self.token(),
    {
        match self {
            Color::White => {
                proof {
                    reveal_strlit("w");
                }
                "w".to_owned()
            },
            Color::Black => {
                proof {
                    reveal_strlit("b");
                }
                "b".to_owned()
            },
        }
    }

    /// Reads a color from the characters of its token.
    pub fn from_chars(text: &Vec<char>) -> (r: Result<Color, InvalidToken>)
        ensures
            r == match Color::parse(text@) {
                Some(color) => Ok::<Color, InvalidToken>(color),
                None => Err(InvalidToken),
            },
    {
        if text.len() != 1 {
            return Err(InvalidToken);
        }
        let c = text[0];
        if c == 'w' {
            assert(text@ =~= seq!['w']);
            Ok(Color::White)
        } else if c == 'b' {
            assert(text@ =~= seq!['b']);
            Ok(Color::Black)
        } else {
            Err(InvalidToken)
        }
    }

    /// Reads a color from its token. Every text but `w` and `b` is refused.
    pub fn from_str(s: &str) -> (r: Result<Color, InvalidToken>)
        ensures
            r == match Color::parse(s@) {
                Some(color) => Ok::<Color, InvalidToken>(color),
                None => Err(InvalidToken),
            },
    {
        let text = to_chars(s);
        Color::from_chars(&text)
    }

    /// The token of a color is one letter, `w` or `b`, and reads back as that
    /// color.
    pub proof fn lemma_token_round_trip(self)
        ensures
            self.token().len() == 1,
            self.token()[0] == 'w' || self.token()[0] == 'b',
            Color::parse(self.token()) == Some(self),
    {
    }

    /// A text that names a color is the token of that color.
    pub proof fn lemma_parse_is_token(text: Seq<char>)
        requires
            Color::parse(text) is Some,
        ensures
            Color::parse(text).unwrap().token() == text,
    {
    }
}

} // verus!
