//! The castling availability: which of the four castling moves are still
//! allowed, written as letters of `KQkq` or as a dash.

use vstd::prelude::*;
use vstd::string::StringExecFns;
use crate::text::{free_of, to_chars};

verus! {

/// The four castling rights. They are flags of their own: nothing here
/// derives them from where the kings and rooks stand.
#[derive(Clone, Copy, Debug, PartialEq, Eq, Structural)]
pub struct CastlingRights {
    pub white_kingside: bool,
    pub white_queenside: bool,
    pub black_kingside: bool,
    pub black_queenside: bool,
}

/// `letter` if `present`, and nothing otherwise.
pub open spec fn letter_if(present: bool, letter: char) -> Seq<char> {
    if present {
        seq![letter]
    } else {
        Seq::<char>::empty()
    }
}

/// The letters of the rights that hold, in the order `K`, `Q`, `k`, `q`.
pub open spec fn castling_letters(rights: CastlingRights) -> Seq<char> {
    letter_if(rights.white_kingside, 'K') + letter_if(rights.white_queenside, 'Q') + letter_if(
        rights.black_kingside,
        'k',
    ) + letter_if(rights.black_queenside, 'q')
}

/// The text of the castling availability: the letters of the rights that
/// hold, or a dash if none does.
pub open spec fn castling_text(rights: CastlingRights) -> Seq<char> {
    if castling_letters(rights).len() == 0 {
        seq!['-']
    } else {
        castling_letters(rights)
    }
}

/// The rights whose letters occur in `s`.
pub open spec fn rights_named(s: Seq<char>) -> CastlingRights {
    CastlingRights {
        white_kingside: s.contains('K'),
        white_queenside: s.contains('Q'),
        black_kingside: s.contains('k'),
        black_queenside: s.contains('q'),
    }
}

/// The rights that `s` grants, if `s` is a castling availability: the text
/// that [`castling_text`] writes for the rights whose letters it holds. So a
/// dash grants nothing, letters of `KQkq` in that order grant what they name,
/// and every other text, the empty one too, is refused.
pub open spec fn parse_castling(s: Seq<char>) -> Option<CastlingRights> {
    if s == castling_text(rights_named(s)) {
        Some(rights_named(s))
    } else {
        None
    }
}

/// The text of a castling availability is never empty, is a dash exactly
/// when no right holds, holds no space, and reads back as the rights written.
pub proof fn lemma_castling_round_trip(rights: CastlingRights)
    ensures
        1 <= castling_text(rights).len() <= 4,
        free_of(castling_text(rights), ' '),
        castling_text(rights) == seq!['-'] <==> !rights.white_kingside && !rights.white_queenside
            && !rights.black_kingside && !rights.black_queenside,
        parse_castling(castling_text(rights)) == Some(rights),
{
    let text = castling_text(rights);
    let a = letter_if(rights.white_kingside, 'K');
    let b = letter_if(rights.white_queenside, 'Q');
    let c = letter_if(rights.black_kingside, 'k');
    if rights.white_kingside {
        assert(text[0] == 'K');
    }
    if rights.white_queenside {
        assert(text[a.len() as int] == 'Q');
    }
    if rights.black_kingside {
        assert(text[(a.len() + b.len()) as int] == 'k');
    }
    if rights.black_queenside {
        assert(text[(a.len() + b.len() + c.len()) as int] == 'q');
    }
}

/// Whether `c` occurs in `text`.
fn occurs(text: &Vec<char>, c: char) -> (found: bool)
    ensures
        found == text@.contains(c),
{
    let mut i: usize = 0;
    while i < text.len()
        invariant
            i <= text.len(),
            forall|j: int| 0 <= j < i ==> text@[j] != c,
        decreases text.len() - i,
    {
        if text[i] == c {
            return true;
        }
        i += 1;
    }
    false
}

/// Whether `text` holds exactly the characters of `s`.
fn spells(text: &Vec<char>, s: &str) -> (same: bool)
    ensures
        same == (text@ == s@),
{
    let other = to_chars(s);
    if text.len() != other.len() {
        return false;
    }
    let mut i: usize = 0;
    while i < text.len()
        invariant
            i <= text.len(),
            text.len() == other.len(),
            other@ == s@,
            forall|j: int| 0 <= j < i ==> text@[j] == other@[j],
        decreases text.len() - i,
    {
        if text[i] != other[i] {
            return false;
        }
        i += 1;
    }
    assert(text@ =~= other@);
    true
}

/// Writes the text of the castling availability `rights`.
pub fn castling_string(rights: CastlingRights) -> (s: String)
    ensures
        s@ == castling_text(rights),
{
    let mut s = String::new();
    proof {
        reveal_strlit("K");
        reveal_strlit("Q");
        reveal_strlit("k");
        reveal_strlit("q");
        reveal_strlit("-");
    }
    if rights.white_kingside {
        s.append("K");
    }
    if rights.white_queenside {
        s.append("Q");
    }
    if rights.black_kingside {
        s.append("k");
    }
    if rights.black_queenside {
        s.append("q");
    }
    if !rights.white_kingside && !rights.white_queenside && !rights.black_kingside
        && !rights.black_queenside {
        s.append("-");
    }
    s
}

/// Reads a castling availability.
pub fn read_castling(text: &Vec<char>) -> (rights: Option<CastlingRights>)
    ensures
        rights == parse_castling(text@),
{
    let named = CastlingRights {
        white_kingside: occurs(text, 'K'),
        white_queenside: occurs(text, 'Q'),
        black_kingside: occurs(text, 'k'),
        black_queenside: occurs(text, 'q'),
    };
    let canonical = castling_string(named);
    if spells(text, canonical.as_str()) {
        Some(named)
    } else {
        None
    }
}

} // verus!
