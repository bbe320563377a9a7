//! The piece placement: eight ranks of eight cells, written rank by rank
//! with runs of empty cells collapsed into their length.

use vstd::prelude::*;
use vstd::string::StringExecFns;
use crate::error::FenError;
use crate::piece::Piece;
use crate::text::{
    free_of, join_with, lemma_join_free_of, lemma_split_join, split, split_by, texts,
};

verus! {

/// The digit that stands for a run of `n` empty cells, for `n` from 1 to 8.
pub open spec fn run_digit(n: int) -> char {
    if n == 1 {
        '1'
    } else if n == 2 {
        '2'
    } else if n == 3 {
        '3'
    } else if n == 4 {
        '4'
    } else if n == 5 {
        '5'
    } else if n == 6 {
        '6'
    } else if n == 7 {
        '7'
    } else {
        '8'
    }
}

/// The length of the run of empty cells that `c` stands for, if `c` is a
/// digit from `1` to `8`.
pub open spec fn run_length(c: char) -> Option<int> {
    if c == '1' {
        Some(1)
    } else if c == '2' {
        Some(2)
    } else if c == '3' {
        Some(3)
    } else if c == '4' {
        Some(4)
    } else if c == '5' {
        Some(5)
    } else if c == '6' {
        Some(6)
    } else if c == '7' {
        Some(7)
    } else if c == '8' {
        Some(8)
    } else {
        None
    }
}

/// A run of `n` empty cells.
pub open spec fn empty_cells(n: int) -> Seq<Option<Piece>> {
    Seq::new(n as nat, |i: int| None::<Piece>)
}

/// The cells that the character `c` of a rank describes: one occupied cell
/// for a piece letter, a run of empty cells for a digit from `1` to `8`.
/// Any other character describes nothing.
pub open spec fn cells_of(c: char) -> Option<Seq<Option<Piece>>> {
    match Piece::of_letter(c) {
        Some(piece) => Some(seq![Some(piece)]),
        None => match run_length(c) {
            Some(n) => Some(empty_cells(n)),
            None => None,
        },
    }
}

/// Whether every character of `s` is a piece letter or a digit from `1` to `8`.
pub open spec fn rank_characters(s: Seq<char>) -> bool {
    forall|i: int| 0 <= i < s.len() ==> cells_of(#[trigger] s[i]) is Some
}

/// The cells that the characters of `s` describe, from the left.
pub open spec fn expand(s: Seq<char>) -> Seq<Option<Piece>>
    decreases s.len(),
{
    if s.len() == 0 {
        Seq::<Option<Piece>>::empty()
    } else {
        expand(s.drop_last()) + match cells_of(s.last()) {
            Some(cells) => cells,
            None => Seq::<Option<Piece>>::empty(),
        }
    }
}

/// The rank that `s` describes. A character that is neither a piece letter
/// nor a digit from `1` to `8` is an invalid piece token, wherever it stands;
/// a text of valid characters must describe exactly eight cells.
pub open spec fn parse_rank(s: Seq<char>) -> Result<Seq<Option<Piece>>, FenError> {
    if !rank_characters(s) {
        Err(FenError::InvalidPieceToken)
    } else if expand(s).len() != 8 {
        Err(FenError::RankLengthMismatch)
    } else {
        Ok(expand(s))
    }
}

/// The number of empty cells at the right end of `cells`.
pub open spec fn trailing_empty(cells: Seq<Option<Piece>>) -> nat
    decreases cells.len(),
{
    if cells.len() == 0 || cells.last() is Some {
        0
    } else {
        1 + trailing_empty(cells.drop_last())
    }
}

/// The empty cells at the right end of `cells` are cells of `cells`.
pub proof fn lemma_trailing_empty_bound(cells: Seq<Option<Piece>>)
    ensures
        trailing_empty(cells) <= cells.len(),
        cells.len() > 0 && cells.last() is None ==> trailing_empty(cells) >= 1,
    decreases cells.len(),
{
    if cells.len() > 0 && cells.last() is None {
        lemma_trailing_empty_bound(cells.drop_last());
    }
}

/// The text of a rank: the letter of each piece, and for each run of
/// consecutive empty cells, taken as long as it goes, the digit of its length.
pub open spec fn rank_text(cells: Seq<Option<Piece>>) -> Seq<char>
    decreases cells.len(),
{
    if cells.len() == 0 {
        Seq::<char>::empty()
    } else {
        match cells.last() {
            Some(piece) => rank_text(cells.drop_last()).push(piece.letter()),
            None => {
                let run = trailing_empty(cells);
                proof {
                    lemma_trailing_empty_bound(cells);
                }
                rank_text(cells.take(cells.len() - run)).push(run_digit(run as int))
            },
        }
    }
}

/// A piece written after `cells` adds its letter to their text.
pub proof fn lemma_rank_text_piece(cells: Seq<Option<Piece>>, piece: Piece)
    ensures
        rank_text(cells.push(Some(piece))) == rank_text(cells).push(piece.letter()),
{
    assert(cells.push(Some(piece)).drop_last() =~= cells);
}

/// The empty cells at the right end of `cells` are empty, and the cell to
/// their left, if there is one, is occupied.
pub proof fn lemma_trailing_empty_cells(cells: Seq<Option<Piece>>)
    ensures
        trailing_empty(cells) <= cells.len(),
        forall|j: int| cells.len() - trailing_empty(cells) <= j < cells.len() ==> cells[j] is None,
        trailing_empty(cells) < cells.len() ==> cells[cells.len() - trailing_empty(cells)
            - 1] is Some,
    decreases cells.len(),
{
    if cells.len() > 0 && cells.last() is None {
        let front = cells.drop_last();
        lemma_trailing_empty_cells(front);
        assert forall|j: int|
            cells.len() - trailing_empty(cells) <= j < cells.len() implies cells[j] is None by {
            if j < front.len() {
                assert(cells[j] == front[j]);
            }
        }
    }
}

/// A run of `run` empty cells that ends `cells`, with an occupied cell or
/// nothing to its left, is the whole run at the right end of `cells`.
pub proof fn lemma_trailing_empty_is(cells: Seq<Option<Piece>>, run: int)
    requires
        0 <= run <= cells.len(),
        forall|j: int| cells.len() - run <= j < cells.len() ==> cells[j] is None,
        run < cells.len() ==> cells[cells.len() - run - 1] is Some,
    ensures
        trailing_empty(cells) == run,
    decreases run,
{
    if run > 0 {
        lemma_trailing_empty_is(cells.drop_last(), run - 1);
    }
}

/// A character of a rank is neither a slash nor a space.
pub proof fn lemma_rank_characters_plain(s: Seq<char>)
    requires
        rank_characters(s),
    ensures
        free_of(s, '/'),
        free_of(s, ' '),
{
}

/// What [`rank_text`] writes for up to eight cells reads back as those cells.
pub proof fn lemma_rank_round_trip(cells: Seq<Option<Piece>>)
    requires
        cells.len() <= 8,
    ensures
        rank_characters(rank_text(cells)),
        expand(rank_text(cells)) == cells,
        cells.len() == 8 ==> parse_rank(rank_text(cells)) == Ok::<Seq<Option<Piece>>, FenError>(
            cells,
        ),
    decreases cells.len(),
{
    let text = rank_text(cells);
    if cells.len() > 0 {
        match cells.last() {
            Some(piece) => {
                let front = cells.drop_last();
                lemma_rank_round_trip(front);
                piece.lemma_letter_round_trip();
                assert(text.drop_last() =~= rank_text(front));
            },
            None => {
                lemma_trailing_empty_cells(cells);
                let front = cells.take(cells.len() - trailing_empty(cells));
                lemma_rank_round_trip(front);
                assert(text.drop_last() =~= rank_text(front));
            },
        }
    }
}

/// The digit of a run of `n` empty cells as a one-character text.
fn run_str(n: usize) -> (s: &'static str)
    requires
        1 <= n <= 8,
    ensures
        s@ == seq![run_digit(n as int)],
{
    if n == 1 {
        proof {
            reveal_strlit("1");
        }
        "1"
    } else if n == 2 {
        proof {
            reveal_strlit("2");
        }
        "2"
    } else if n == 3 {
        proof {
            reveal_strlit("3");
        }
        "3"
    } else if n == 4 {
        proof {
            reveal_strlit("4");
        }
        "4"
    } else if n == 5 {
        proof {
            reveal_strlit("5");
        }
        "5"
    } else if n == 6 {
        proof {
            reveal_strlit("6");
        }
        "6"
    } else if n == 7 {
        proof {
            reveal_strlit("7");
        }
        "7"
    } else {
        proof {
            reveal_strlit("8");
        }
        "8"
    }
}

/// The length of the run of empty cells that `c` stands for.
fn run_number(c: char) -> (n: Option<usize>)
    ensures
        n is Some == run_length(c) is Some,
        n is Some ==> n.unwrap() == run_length(c).unwrap() && 1 <= n.unwrap() <= 8,
{
    match c {
        '1' => Some(1),
        '2' => Some(2),
        '3' => Some(3),
        '4' => Some(4),
        '5' => Some(5),
        '6' => Some(6),
        '7' => Some(7),
        '8' => Some(8),
        _ => None,
    }
}

/// Writes the text of the rank `row` at the end of `out`.
pub fn write_rank(out: &mut String, row: &[Option<Piece>; 8])
    ensures
        final(out)@ == old(out)@ + rank_text(row@),
{
    let ghost start = out@;
    let mut run: usize = 0;
    let mut i: usize = 0;
    while i < 8
        invariant
            run <= i <= 8,
            out@ == start + rank_text(row@.take(i - run)),
            forall|j: int| i - run <= j < i ==> row@[j] is None,
            run < i ==> row@[i - run - 1] is Some,
        decreases 8 - i,
    {
        match row[i] {
            Some(piece) => {
                if run > 0 {
                    proof {
                        lemma_rank_text_run(row@.take(i as int), run as int);
                        assert(row@.take(i as int).take(i - run) =~= row@.take(i - run));
                    }
                    out.append(run_str(run));
                    run = 0;
                }
                assert(row@.take(i + 1).drop_last() =~= row@.take(i as int));
                out.append(piece.as_str());
            },
            None => {
                run += 1;
            },
        }
        i += 1;
    }
    if run > 0 {
        proof {
            lemma_rank_text_run(row@.take(8), run as int);
        }
        out.append(run_str(run));
    }
    assert(row@.take(8) =~= row@);
}

/// The text of cells that end in a run of `run` empty cells is the text of
/// the cells before the run, then the digit of `run`.
pub proof fn lemma_rank_text_run(cells: Seq<Option<Piece>>, run: int)
    requires
        1 <= run <= cells.len(),
        forall|j: int| cells.len() - run <= j < cells.len() ==> cells[j] is None,
        run < cells.len() ==> cells[cells.len() - run - 1] is Some,
    ensures
        rank_text(cells) == rank_text(cells.take(cells.len() - run)).push(run_digit(run)),
{
    lemma_trailing_empty_is(cells, run);
}

/// Reads one rank of a piece placement.
pub fn read_rank(text: &Vec<char>) -> (r: Result<[Option<Piece>; 8], FenError>)
    ensures
        match parse_rank(text@) {
            Ok(cells) => r is Ok && r.unwrap()@ == cells,
            Err(e) => r == Err::<[Option<Piece>; 8], FenError>(e),
        },
{
    let mut row: [Option<Piece>; 8] = [None; 8];
    let mut file: usize = 0;
    let mut i: usize = 0;
    while i < text.len()
        invariant
            i <= text.len(),
            file <= 9,
            rank_characters(text@.take(i as int)),
            file <= 8 ==> expand(text@.take(i as int)) == row@.take(file as int),
            file == 9 ==> expand(text@.take(i as int)).len() > 8,
            forall|j: int| file <= j < 8 ==> row@[j] is None,
        decreases text.len() - i,
    {
        let c = text[i];
        assert(text@.take(i + 1).drop_last() =~= text@.take(i as int));
        match Piece::from_char(c) {
            Ok(piece) => {
                if file < 8 {
                    row[file] = Some(piece);
                    file += 1;
                } else {
                    file = 9;
                }
            },
            Err(_) => {
                match run_number(c) {
                    Some(n) => {
                        if file + n <= 8 {
                            file += n;
                        } else {
                            file = 9;
                        }
                    },
                    None => {
                        return Err(FenError::InvalidPieceToken);
                    },
                }
            },
        }
        i += 1;
    }
    assert(text@.take(i as int) =~= text@);
    if file == 8 {
        Ok(row)
    } else {
        Err(FenError::RankLengthMismatch)
    }
}

/// The rows of a board as sequences: the first row is the eighth rank, the
/// last row the first rank, and each row runs from file `a` to file `h`.
pub open spec fn board_rows(board: [[Option<Piece>; 8]; 8]) -> Seq<Seq<Option<Piece>>> {
    Seq::new(8, |r: int| board@[r]@)
}

/// Whether `rows` are eight rows of eight cells.
pub open spec fn eight_by_eight(rows: Seq<Seq<Option<Piece>>>) -> bool {
    &&& rows.len() == 8
    &&& forall|r: int| 0 <= r < 8 ==> (#[trigger] rows[r]).len() == 8
}

/// The text of each row.
pub open spec fn rank_texts(rows: Seq<Seq<Option<Piece>>>) -> Seq<Seq<char>> {
    Seq::new(rows.len(), |r: int| rank_text(rows[r]))
}

/// The text of a piece placement: the texts of its rows, joined by slashes.
pub open spec fn placement_text(rows: Seq<Seq<Option<Piece>>>) -> Seq<char> {
    join_with(rank_texts(rows), '/')
}

/// The rows that `segments` describe, or what is wrong with the first
/// segment that describes no rank.
pub open spec fn parse_ranks(segments: Seq<Seq<char>>) -> Result<Seq<Seq<Option<Piece>>>, FenError>
    decreases segments.len(),
{
    if segments.len() == 0 {
        Ok(Seq::<Seq<Option<Piece>>>::empty())
    } else {
        match parse_ranks(segments.drop_last()) {
            Err(e) => Err(e),
            Ok(rows) => match parse_rank(segments.last()) {
                Err(e) => Err(e),
                Ok(row) => Ok(rows.push(row)),
            },
        }
    }
}

/// The rows that the piece placement `s` describes. The slashes of `s` must
/// cut it into exactly eight segments, whatever they hold; then each segment
/// must describe a rank, and the first that does not decides the error.
pub open spec fn parse_placement(s: Seq<char>) -> Result<Seq<Seq<Option<Piece>>>, FenError> {
    let segments = split_by(s, '/');
    if segments.len() != 8 {
        Err(FenError::RankCountMismatch)
    } else {
        parse_ranks(segments)
    }
}

/// What is wrong with the first segments of a placement is wrong with all of
/// them.
pub proof fn lemma_parse_ranks_error(segments: Seq<Seq<char>>, k: int)
    requires
        0 <= k <= segments.len(),
        parse_ranks(segments.take(k)) is Err,
    ensures
        parse_ranks(segments) == parse_ranks(segments.take(k)),
    decreases segments.len() - k,
{
    if k == segments.len() {
        assert(segments.take(k) =~= segments);
    } else {
        assert(segments.take(k + 1).drop_last() =~= segments.take(k));
        lemma_parse_ranks_error(segments, k + 1);
    }
}

/// Segments that describe ranks describe as many rows, of eight cells each.
pub proof fn lemma_parse_ranks_shape(segments: Seq<Seq<char>>)
    requires
        parse_ranks(segments) is Ok,
    ensures
        parse_ranks(segments).unwrap().len() == segments.len(),
        forall|r: int|
            0 <= r < segments.len() ==> (#[trigger] parse_ranks(segments).unwrap()[r]).len() == 8,
        forall|r: int|
            0 <= r < segments.len() ==> parse_rank(segments[r]) == Ok::<
                Seq<Option<Piece>>,
                FenError,
            >(#[trigger] parse_ranks(segments).unwrap()[r]),
    decreases segments.len(),
{
    if segments.len() > 0 {
        lemma_parse_ranks_shape(segments.drop_last());
    }
}

/// Segments that describe a rank each describe rows together.
pub proof fn lemma_parse_ranks_ok(segments: Seq<Seq<char>>)
    requires
        forall|j: int| 0 <= j < segments.len() ==> parse_rank(#[trigger] segments[j]) is Ok,
    ensures
        parse_ranks(segments) is Ok,
    decreases segments.len(),
{
    if segments.len() > 0 {
        let front = segments.drop_last();
        assert forall|j: int| 0 <= j < front.len() implies parse_rank(
            #[trigger] front[j],
        ) is Ok by {
            assert(front[j] == segments[j]);
        }
        lemma_parse_ranks_ok(front);
        assert(segments.last() == segments[segments.len() - 1]);
    }
}

/// The first segment that describes no rank decides the error.
pub proof fn lemma_parse_ranks_first_error(segments: Seq<Seq<char>>, k: int)
    requires
        0 <= k < segments.len(),
        forall|j: int| 0 <= j < k ==> parse_rank(#[trigger] segments[j]) is Ok,
        parse_rank(segments[k]) is Err,
    ensures
        parse_ranks(segments) is Err,
        parse_ranks(segments)->Err_0 == parse_rank(segments[k])->Err_0,
{
    let front = segments.take(k);
    assert forall|j: int| 0 <= j < front.len() implies parse_rank(#[trigger] front[j]) is Ok by {
        assert(front[j] == segments[j]);
    }
    lemma_parse_ranks_ok(front);
    assert(segments.take(k + 1).drop_last() =~= front);
    assert(segments.take(k + 1).last() == segments[k]);
    lemma_parse_ranks_error(segments, k + 1);
}

/// The texts of rows of up to eight cells read back as those rows.
pub proof fn lemma_ranks_round_trip(rows: Seq<Seq<Option<Piece>>>)
    requires
        forall|r: int| 0 <= r < rows.len() ==> (#[trigger] rows[r]).len() == 8,
    ensures
        parse_ranks(rank_texts(rows)) == Ok::<Seq<Seq<Option<Piece>>>, FenError>(rows),
    decreases rows.len(),
{
    if rows.len() == 0 {
        assert(rows =~= Seq::<Seq<Option<Piece>>>::empty());
    } else {
        let front = rows.drop_last();
        lemma_ranks_round_trip(front);
        assert(rank_texts(rows).drop_last() =~= rank_texts(front));
        lemma_rank_round_trip(rows.last());
        assert(front.push(rows.last()) =~= rows);
    }
}

/// The text of a placement of eight rows of eight cells reads back as those
/// rows, and holds no space.
pub proof fn lemma_placement_round_trip(rows: Seq<Seq<Option<Piece>>>)
    requires
        eight_by_eight(rows),
    ensures
        parse_placement(placement_text(rows)) == Ok::<Seq<Seq<Option<Piece>>>, FenError>(rows),
        free_of(placement_text(rows), ' '),
{
    let parts = rank_texts(rows);
    assert forall|k: int| 0 <= k < parts.len() implies free_of(#[trigger] parts[k], '/')
        && free_of(parts[k], ' ') by {
        lemma_rank_round_trip(rows[k]);
        lemma_rank_characters_plain(parts[k]);
    }
    lemma_split_join(parts, '/');
    lemma_join_free_of(parts, '/', ' ');
    lemma_ranks_round_trip(rows);
}

/// Writes the text of the piece placement of `board` at the end of `out`.
pub fn write_placement(out: &mut String, board: &[[Option<Piece>; 8]; 8])
    ensures
        final(out)@ == old(out)@ + placement_text(board_rows(*board)),
{
    let ghost start = out@;
    let ghost parts = rank_texts(board_rows(*board));
    let mut r: usize = 0;
    while r < 8
        invariant
            r <= 8,
            parts == rank_texts(board_rows(*board)),
            out@ == start + join_with(parts.take(r as int), '/'),
        decreases 8 - r,
    {
        if r > 0 {
            proof {
                reveal_strlit("/");
            }
            out.append("/");
        }
        write_rank(out, &board[r]);
        assert(parts.take(r + 1).drop_last() =~= parts.take(r as int));
        r += 1;
    }
    assert(parts.take(8) =~= parts);
}

/// Reads a piece placement.
pub fn read_placement(text: &Vec<char>) -> (r: Result<[[Option<Piece>; 8]; 8], FenError>)
    ensures
        match parse_placement(text@) {
            Ok(rows) => r is Ok && board_rows(r.unwrap()) == rows,
            Err(e) => r == Err::<[[Option<Piece>; 8]; 8], FenError>(e),
        },
{
    let segments = split(text, '/');
    if segments.len() != 8 {
        return Err(FenError::RankCountMismatch);
    }
    let ghost parts = texts(segments@);
    let mut board: [[Option<Piece>; 8]; 8] = [[None; 8]; 8];
    let mut k: usize = 0;
    assert(Seq::new(0nat, |j: int| board@[j]@) =~= Seq::<Seq<Option<Piece>>>::empty());
    while k < 8
        invariant
            k <= 8,
            segments.len() == 8,
            parts == texts(segments@),
            parts == split_by(text@, '/'),
            parse_ranks(parts.take(k as int)) == Ok::<Seq<Seq<Option<Piece>>>, FenError>(
                Seq::new(k as nat, |j: int| board@[j]@),
            ),
        decreases 8 - k,
    {
        let ghost done = Seq::new(k as nat, |j: int| board@[j]@);
        assert(parts.take(k + 1).drop_last() =~= parts.take(k as int));
        match read_rank(&segments[k]) {
            Ok(row) => {
                board[k] = row;
                assert(Seq::new((k + 1) as nat, |j: int| board@[j]@) =~= done.push(row@));
            },
            Err(e) => {
                proof {
                    lemma_parse_ranks_error(parts, k + 1);
                }
                return Err(e);
            },
        }
        k += 1;
    }
    assert(parts.take(8) =~= parts);
    Ok(board)
}

} // verus!
