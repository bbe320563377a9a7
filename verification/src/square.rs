//! The sixty-four squares and their names.

use vstd::prelude::*;
use crate::error::InvalidToken;
use vstd::string::StringExecFns;
use crate::text::to_chars;

verus! {

/// A square of the board. The variants are listed rank by rank from the first
/// rank, and within a rank from file `a` to file `h`.
#[derive(Clone, Copy, Debug, PartialEq, Eq, Structural)]
pub enum Square {
    A1, B1, C1, D1, E1, F1, G1, H1,
    A2, B2, C2, D2, E2, F2, G2, H2,
    A3, B3, C3, D3, E3, F3, G3, H3,
    A4, B4, C4, D4, E4, F4, G4, H4,
    A5, B5, C5, D5, E5, F5, G5, H5,
    A6, B6, C6, D6, E6, F6, G6, H6,
    A7, B7, C7, D7, E7, F7, G7, H7,
    A8, B8, C8, D8, E8, F8, G8, H8,
}

/// The letter of the file numbered `file`, where `a` is file 0.
pub open spec fn file_letter(file: int) -> char {
    if file == 0 {
        'a'
    } else if file == 1 {
        'b'
    } else if file == 2 {
        'c'
    } else if file == 3 {
        'd'
    } else if file == 4 {
        'e'
    } else if file == 5 {
        'f'
    } else if file == 6 {
        'g'
    } else {
        'h'
    }
}

/// The digit of the rank numbered `rank`, where the first rank is rank 0.
pub open spec fn rank_digit(rank: int) -> char {
    if rank == 0 {
        '1'
    } else if rank == 1 {
        '2'
    } else if rank == 2 {
        '3'
    } else if rank == 3 {
        '4'
    } else if rank == 4 {
        '5'
    } else if rank == 5 {
        '6'
    } else if rank == 6 {
        '7'
    } else {
        '8'
    }
}

/// The number of the file that `c` names, if it is a letter from `a` to `h`.
pub open spec fn file_of(c: char) -> Option<int> {
    if c == 'a' {
        Some(0)
    } else if c == 'b' {
        Some(1)
    } else if c == 'c' {
        Some(2)
    } else if c == 'd' {
        Some(3)
    } else if c == 'e' {
        Some(4)
    } else if c == 'f' {
        Some(5)
    } else if c == 'g' {
        Some(6)
    } else if c == 'h' {
        Some(7)
    } else {
        None
    }
}

/// The number of the rank that `c` names, if it is a digit from `1` to `8`.
pub open spec fn rank_of(c: char) -> Option<int> {
    if c == '1' {
        Some(0)
    } else if c == '2' {
        Some(1)
    } else if c == '3' {
        Some(2)
    } else if c == '4' {
        Some(3)
    } else if c == '5' {
        Some(4)
    } else if c == '6' {
        Some(5)
    } else if c == '7' {
        Some(6)
    } else if c == '8' {
        Some(7)
    } else {
        None
    }
}

impl Square {
    /// The place of this square in the enumeration `a1, b1, ..., h1, a2, ..., h8`,
    /// counting from zero.
    pub open spec fn index(self) -> int {
        match self {
            Square::A1 => 0,
            Square::B1 => 1,
            Square::C1 => 2,
            Square::D1 => 3,
            Square::E1 => 4,
            Square::F1 => 5,
            Square::G1 => 6,
            Square::H1 => 7,
            Square::A2 => 8,
            Square::B2 => 9,
            Square::C2 => 10,
            Square::D2 => 11,
            Square::E2 => 12,
            Square::F2 => 13,
            Square::G2 => 14,
            Square::H2 => 15,
            Square::A3 => 16,
            Square::B3 => 17,
            Square::C3 => 18,
            Square::D3 => 19,
            Square::E3 => 20,
            Square::F3 => 21,
            Square::G3 => 22,
            Square::H3 => 23,
            Square::A4 => 24,
            Square::B4 => 25,
            Square::C4 => 26,
            Square::D4 => 27,
            Square::E4 => 28,
            Square::F4 => 29,
            Square::G4 => 30,
            Square::H4 => 31,
            Square::A5 => 32,
            Square::B5 => 33,
            Square::C5 => 34,
            Square::D5 => 35,
            Square::E5 => 36,
            Square::F5 => 37,
            Square::G5 => 38,
            Square::H5 => 39,
            Square::A6 => 40,
            Square::B6 => 41,
            Square::C6 => 42,
            Square::D6 => 43,
            Square::E6 => 44,
            Square::F6 => 45,
            Square::G6 => 46,
            Square::H6 => 47,
            Square::A7 => 48,
            Square::B7 => 49,
            Square::C7 => 50,
            Square::D7 => 51,
            Square::E7 => 52,
            Square::F7 => 53,
            Square::G7 => 54,
            Square::H7 => 55,
            Square::A8 => 56,
            Square::B8 => 57,
            Square::C8 => 58,
            Square::D8 => 59,
            Square::E8 => 60,
            Square::F8 => 61,
            Square::G8 => 62,
            Square::H8 => 63,
        }
    }

    /// The square whose place in the enumeration is `index`.
    pub open spec fn of_index(index: int) -> Square {
        if index == 0 {
            Square::A1
        } else if index == 1 {
            Square::B1
        } else if index == 2 {
            Square::C1
        } else if index == 3 {
            Square::D1
        } else if index == 4 {
            Square::E1
        } else if index == 5 {
            Square::F1
        } else if index == 6 {
            Square::G1
        } else if index == 7 {
            Square::H1
        } else if index == 8 {
            Square::A2
        } else if index == 9 {
            Square::B2
        } else if index == 10 {
            Square::C2
        } else if index == 11 {
            Square::D2
        } else if index == 12 {
            Square::E2
        } else if index == 13 {
            Square::F2
        } else if index == 14 {
            Square::G2
        } else if index == 15 {
            Square::H2
        } else if index == 16 {
            Square::A3
        } else if index == 17 {
            Square::B3
        } else if index == 18 {
            Square::C3
        } else if index == 19 {
            Square::D3
        } else if index == 20 {
            Square::E3
        } else if index == 21 {
            Square::F3
        } else if index == 22 {
            Square::G3
        } else if index == 23 {
            Square::H3
        } else if index == 24 {
            Square::A4
        } else if index == 25 {
            Square::B4
        } else if index == 26 {
            Square::C4
        } else if index == 27 {
            Square::D4
        } else if index == 28 {
            Square::E4
        } else if index == 29 {
            Square::F4
        } else if index == 30 {
            Square::G4
        } else if index == 31 {
            Square::H4
        } else if index == 32 {
            Square::A5
        } else if index == 33 {
            Square::B5
        } else if index == 34 {
            Square::C5
        } else if index == 35 {
            Square::D5
        } else if index == 36 {
            Square::E5
        } else if index == 37 {
            Square::F5
        } else if index == 38 {
            Square::G5
        } else if index == 39 {
            Square::H5
        } else if index == 40 {
            Square::A6
        } else if index == 41 {
            Square::B6
        } else if index == 42 {
            Square::C6
        } else if index == 43 {
            Square::D6
        } else if index == 44 {
            Square::E6
        } else if index == 45 {
            Square::F6
        } else if index == 46 {
            Square::G6
        } else if index == 47 {
            Square::H6
        } else if index == 48 {
            Square::A7
        } else if index == 49 {
            Square::B7
        } else if index == 50 {
            Square::C7
        } else if index == 51 {
            Square::D7
        } else if index == 52 {
            Square::E7
        } else if index == 53 {
            Square::F7
        } else if index == 54 {
            Square::G7
        } else if index == 55 {
            Square::H7
        } else if index == 56 {
            Square::A8
        } else if index == 57 {
            Square::B8
        } else if index == 58 {
            Square::C8
        } else if index == 59 {
            Square::D8
        } else if index == 60 {
            Square::E8
        } else if index == 61 {
            Square::F8
        } else if index == 62 {
            Square::G8
        } else {
            Square::H8
        }
    }

    /// The number of the file of this square, where `a` is file 0.
    pub open spec fn file(self) -> int {
        self.index() % 8
    }

    /// The number of the rank of this square, where the first rank is rank 0.
    pub open spec fn rank(self) -> int {
        self.index() / 8
    }

    /// The row of a board on which this square lies. Rows count from the
    /// eighth rank down, the other way round than ranks: the first rank is
    /// row 7 and the eighth rank is row 0.
    pub open spec fn row(self) -> int {
        7 - self.rank()
    }

    /// The cell of its row in which this square lies: file `a` is cell 0.
    pub open spec fn column(self) -> int {
        self.file()
    }

    /// The name of this square: the letter of its file, then the digit of its rank.
    pub open spec fn token(self) -> Seq<char> {
        seq![file_letter(self.file()), rank_digit(self.rank())]
    }

    /// The square that `text` names, if it names one: exactly two characters,
    /// a file letter from `a` to `h` and a rank digit from `1` to `8`.
    pub open spec fn parse(text: Seq<char>) -> Option<Square> {
        if text.len() == 2 && file_of(text[0]) is Some && rank_of(text[1]) is Some {
            Some(Square::of_index(8 * rank_of(text[1]).unwrap() + file_of(text[0]).unwrap()))
        } else {
            None
        }
    }

    /// The place of this square in the enumeration, counting from zero.
    pub fn to_index(&self) -> (index: u8)
        ensures
            index == self.index(),
            index < 64,
    {
        match self {
            Square::A1 => 0,
            Square::B1 => 1,
            Square::C1 => 2,
            Square::D1 => 3,
            Square::E1 => 4,
            Square::F1 => 5,
            Square::G1 => 6,
            Square::H1 => 7,
            Square::A2 => 8,
            Square::B2 => 9,
            Square::C2 => 10,
            Square::D2 => 11,
            Square::E2 => 12,
            Square::F2 => 13,
            Square::G2 => 14,
            Square::H2 => 15,
            Square::A3 => 16,
            Square::B3 => 17,
            Square::C3 => 18,
            Square::D3 => 19,
            Square::E3 => 20,
            Square::F3 => 21,
            Square::G3 => 22,
            Square::H3 => 23,
            Square::A4 => 24,
            Square::B4 => 25,
            Square::C4 => 26,
            Square::D4 => 27,
            Square::E4 => 28,
            Square::F4 => 29,
            Square::G4 => 30,
            Square::H4 => 31,
            Square::A5 => 32,
            Square::B5 => 33,
            Square::C5 => 34,
            Square::D5 => 35,
            Square::E5 => 36,
            Square::F5 => 37,
            Square::G5 => 38,
            Square::H5 => 39,
            Square::A6 => 40,
            Square::B6 => 41,
            Square::C6 => 42,
            Square::D6 => 43,
            Square::E6 => 44,
            Square::F6 => 45,
            Square::G6 => 46,
            Square::H6 => 47,
            Square::A7 => 48,
            Square::B7 => 49,
            Square::C7 => 50,
            Square::D7 => 51,
            Square::E7 => 52,
            Square::F7 => 53,
            Square::G7 => 54,
            Square::H7 => 55,
            Square::A8 => 56,
            Square::B8 => 57,
            Square::C8 => 58,
            Square::D8 => 59,
            Square::E8 => 60,
            Square::F8 => 61,
            Square::G8 => 62,
            Square::H8 => 63,
        }
    }

    /// The square at place `index` of the enumeration; none from 64 on.
    pub fn from_index(index: u8) -> (square: Option<Square>)
        ensures
            index < 64 ==> square == Some(Square::of_index(index as int)),
            index >= 64 ==> square is None,
    {
        match index {
            0 => Some(Square::A1),
            1 => Some(Square::B1),
            2 => Some(Square::C1),
            3 => Some(Square::D1),
            4 => Some(Square::E1),
            5 => Some(Square::F1),
            6 => Some(Square::G1),
            7 => Some(Square::H1),
            8 => Some(Square::A2),
            9 => Some(Square::B2),
            10 => Some(Square::C2),
            11 => Some(Square::D2),
            12 => Some(Square::E2),
            13 => Some(Square::F2),
            14 => Some(Square::G2),
            15 => Some(Square::H2),
            16 => Some(Square::A3),
            17 => Some(Square::B3),
            18 => Some(Square::C3),
            19 => Some(Square::D3),
            20 => Some(Square::E3),
            21 => Some(Square::F3),
            22 => Some(Square::G3),
            23 => Some(Square::H3),
            24 => Some(Square::A4),
            25 => Some(Square::B4),
            26 => Some(Square::C4),
            27 => Some(Square::D4),
            28 => Some(Square::E4),
            29 => Some(Square::F4),
            30 => Some(Square::G4),
            31 => Some(Square::H4),
            32 => Some(Square::A5),
            33 => Some(Square::B5),
            34 => Some(Square::C5),
            35 => Some(Square::D5),
            36 => Some(Square::E5),
            37 => Some(Square::F5),
            38 => Some(Square::G5),
            39 => Some(Square::H5),
            40 => Some(Square::A6),
            41 => Some(Square::B6),
            42 => Some(Square::C6),
            43 => Some(Square::D6),
            44 => Some(Square::E6),
            45 => Some(Square::F6),
            46 => Some(Square::G6),
            47 => Some(Square::H6),
            48 => Some(Square::A7),
            49 => Some(Square::B7),
            50 => Some(Square::C7),
            51 => Some(Square::D7),
            52 => Some(Square::E7),
            53 => Some(Square::F7),
            54 => Some(Square::G7),
            55 => Some(Square::H7),
            56 => Some(Square::A8),
            57 => Some(Square::B8),
            58 => Some(Square::C8),
            59 => Some(Square::D8),
            60 => Some(Square::E8),
            61 => Some(Square::F8),
            62 => Some(Square::G8),
            63 => Some(Square::H8),
            _ => None,
        }
    }

    /// Writes the name of this square.
    pub fn to_string(&self) -> (s: String)
        ensures
            s@ == self.token(),
    {
        let index = self.to_index();
        let mut s = String::new();
        s.append(file_str(index % 8));
        s.append(rank_str(index / 8));
        s
    }

    /// Reads a square from the characters of its name.
    pub fn from_chars(text: &Vec<char>) -> (r: Result<Square, InvalidToken>)
        ensures
            r == match Square::parse(text@) {
                Some(square) => Ok::<Square, InvalidToken>(square),
                None => Err(InvalidToken),
            },
    {
        if text.len() != 2 {
            return Err(InvalidToken);
        }
        match (file_number(text[0]), rank_number(text[1])) {
            (Some(file), Some(rank)) => {
                match Square::from_index(8 * rank + file) {
                    Some(square) => Ok(square),
                    None => Err(InvalidToken),
                }
            },
            _ => Err(InvalidToken),
        }
    }

    /// Reads a square from its name. Every text that is not a file letter
    /// followed by a rank digit is refused.
    pub fn from_str(s: &str) -> (r: Result<Square, InvalidToken>)
        ensures
            r == match Square::parse(s@) {
                Some(square) => Ok::<Square, InvalidToken>(square),
                None => Err(InvalidToken),
            },
    {
        let text = to_chars(s);
        Square::from_chars(&text)
    }

    /// Reading the name of a square gives that square back, and its place in
    /// the enumeration is eight times its rank plus its file.
    pub proof fn lemma_token_round_trip(self)
        ensures
            Square::parse(self.token()) == Some(self),
            Square::of_index(self.index()) == self,
            0 <= self.index() < 64,
            0 <= self.file() < 8,
            0 <= self.rank() < 8,
            self.index() == 8 * self.rank() + self.file(),
    {
    }

    /// The name of a square is a letter from `a` to `h` and a digit from `1` to `8`.
    pub proof fn lemma_token_shape(self)
        ensures
            self.token().len() == 2,
            file_of(self.token()[0]) == Some(self.file()),
            rank_of(self.token()[1]) == Some(self.rank()),
    {
    }

    /// Two squares with the same name are the same square.
    pub proof fn lemma_token_injective(self, other: Square)
        requires
            self.token() == other.token(),
        ensures
            self == other,
    {
        self.lemma_token_round_trip();
        other.lemma_token_round_trip();
    }

    /// A text that names a square is the name of that square.
    pub proof fn lemma_parse_is_token(text: Seq<char>)
        requires
            Square::parse(text) is Some,
        ensures
            Square::parse(text).unwrap().token() == text,
    {
    }
}

/// The letter of a file as a one-character text.
fn file_str(file: u8) -> (s: &'static str)
    requires
        file < 8,
    ensures
        s@ == seq![file_letter(file as int)],
{
    if file == 0 {
        proof {
            reveal_strlit("a");
        }
        "a"
    } else if file == 1 {
        proof {
            reveal_strlit("b");
        }
        "b"
    } else if file == 2 {
        proof {
            reveal_strlit("c");
        }
        "c"
    } else if file == 3 {
        proof {
            reveal_strlit("d");
        }
        "d"
    } else if file == 4 {
        proof {
            reveal_strlit("e");
        }
        "e"
    } else if file == 5 {
        proof {
            reveal_strlit("f");
        }
        "f"
    } else if file == 6 {
        proof {
            reveal_strlit("g");
        }
        "g"
    } else {
        proof {
            reveal_strlit("h");
        }
        "h"
    }
}

/// The digit of a rank as a one-character text.
fn rank_str(rank: u8) -> (s: &'static str)
    requires
        rank < 8,
    ensures
        s@ == seq![rank_digit(rank as int)],
{
    if rank == 0 {
        proof {
            reveal_strlit("1");
        }
        "1"
    } else if rank == 1 {
        proof {
            reveal_strlit("2");
        }
        "2"
    } else if rank == 2 {
        proof {
            reveal_strlit("3");
        }
        "3"
    } else if rank == 3 {
        proof {
            reveal_strlit("4");
        }
        "4"
    } else if rank == 4 {
        proof {
            reveal_strlit("5");
        }
        "5"
    } else if rank == 5 {
        proof {
            reveal_strlit("6");
        }
        "6"
    } else if rank == 6 {
        proof {
            reveal_strlit("7");
        }
        "7"
    } else {
        proof {
            reveal_strlit("8");
        }
        "8"
    }
}

/// The number of the file that `c` names.
fn file_number(c: char) -> (n: Option<u8>)
    ensures
        n is Some == file_of(c) is Some,
        n is Some ==> n.unwrap() == file_of(c).unwrap() && n.unwrap() < 8,
{
    match c {
        'a' => Some(0),
        'b' => Some(1),
        'c' => Some(2),
        'd' => Some(3),
        'e' => Some(4),
        'f' => Some(5),
        'g' => Some(6),
        'h' => Some(7),
        _ => None,
    }
}

/// The number of the rank that `c` names.
fn rank_number(c: char) -> (n: Option<u8>)
    ensures
        n is Some == rank_of(c) is Some,
        n is Some ==> n.unwrap() == rank_of(c).unwrap() && n.unwrap() < 8,
{
    match c {
        '1' => Some(0),
        '2' => Some(1),
        '3' => Some(2),
        '4' => Some(3),
        '5' => Some(4),
        '6' => Some(5),
        '7' => Some(6),
        '8' => Some(7),
        _ => None,
    }
}

} // verus!
