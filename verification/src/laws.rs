//! How reading and writing relate.

use vstd::prelude::*;
use crate::castling::{castling_text, lemma_castling_round_trip};
use crate::color::Color;
use crate::decimal::{
    all_digits, decimal_text, lemma_decimal_round_trip, lemma_digits_value_nonnegative,
    unsigned_part,
};
use crate::error::{FenError, Field};
use crate::piece::Piece;
use crate::placement::{
    eight_by_eight, empty_cells, expand, lemma_parse_ranks_first_error, lemma_parse_ranks_shape,
    lemma_placement_round_trip, lemma_rank_text_piece, lemma_rank_text_run, parse_placement,
    parse_rank, placement_text, rank_characters, rank_text, rank_texts,
};
use crate::position::{
    back_rank, en_passant_text, full_move_number_limit, half_move_clock_limit, parse_en_passant,
    pawn_rank, record_fields, Position, INITIAL_RECORD,
};
use crate::square::Square;
use crate::text::{free_of, lemma_join_push, lemma_split_join, split_by};

verus! {

/// Digits are no spaces.
proof fn lemma_digits_plain(s: Seq<char>)
    requires
        all_digits(s),
    ensures
        free_of(s, ' '),
{
}

/// The text of an en-passant target holds no space and reads back as that
/// target.
pub proof fn lemma_en_passant_round_trip(target: Option<Square>)
    ensures
        free_of(en_passant_text(target), ' '),
        parse_en_passant(en_passant_text(target)) == Some(target),
{
    match target {
        Some(square) => {
            square.lemma_token_round_trip();
            square.lemma_token_shape();
        },
        None => {},
    }
}

/// The fields of the record of a well-formed position hold no space, so the
/// spaces of the record cut it into exactly those six fields.
pub proof fn lemma_record_fields(p: Position)
    requires
        p.well_formed(),
    ensures
        record_fields(p.record()) == p.fields(),
{
    let fields = p.fields();
    lemma_placement_round_trip(p.rows);
    lemma_castling_round_trip(p.castling);
    lemma_en_passant_round_trip(p.en_passant_target);
    lemma_decimal_round_trip(p.half_move_clock, half_move_clock_limit());
    lemma_decimal_round_trip(p.full_move_number, full_move_number_limit());
    lemma_digits_plain(decimal_text(p.half_move_clock));
    lemma_digits_plain(decimal_text(p.full_move_number));
    p.active_color.lemma_token_round_trip();
    lemma_split_join(fields, ' ');
}

/// Writing then reading is the identity: the record of a well-formed
/// position describes that position.
pub proof fn lemma_write_then_read(p: Position)
    requires
        p.well_formed(),
    ensures
        Position::parse(p.record()) == Ok::<Position, FenError>(p),
{
    lemma_record_fields(p);
    lemma_placement_round_trip(p.rows);
    lemma_castling_round_trip(p.castling);
    lemma_en_passant_round_trip(p.en_passant_target);
    lemma_decimal_round_trip(p.half_move_clock, half_move_clock_limit());
    lemma_decimal_round_trip(p.full_move_number, full_move_number_limit());
    p.active_color.lemma_token_round_trip();
}

/// Reading then writing then reading changes nothing: a position that a
/// record describes is well formed, and its own record describes it again.
pub proof fn lemma_read_then_write(text: Seq<char>)
    requires
        Position::parse(text) is Ok,
    ensures
        Position::parse(text).unwrap().well_formed(),
        Position::parse(Position::parse(text).unwrap().record()) == Position::parse(text),
{
    let p = Position::parse(text).unwrap();
    let fields = record_fields(text);
    assert(eight_by_eight(p.rows)) by {
        lemma_parse_ranks_shape(split_by(fields[0], '/'));
    }
    lemma_digits_value_nonnegative(unsigned_part(fields[4]));
    lemma_write_then_read(p);
}

/// No two well-formed positions have the same record.
pub proof fn lemma_record_decides_position(p: Position, q: Position)
    requires
        p.well_formed(),
        q.well_formed(),
        p.record() == q.record(),
    ensures
        p == q,
{
    lemma_write_then_read(p);
    lemma_write_then_read(q);
}

/// A position without any castling right writes a dash, and nothing else,
/// as its castling availability.
pub proof fn lemma_no_rights_dash(p: Position)
    requires
        !p.castling.white_kingside,
        !p.castling.white_queenside,
        !p.castling.black_kingside,
        !p.castling.black_queenside,
    ensures
        p.fields()[2] == seq!['-'],
{
    lemma_castling_round_trip(p.castling);
}

/// A record with fewer than six fields is malformed, whatever its fields
/// hold, and the error names the first field that is missing.
pub proof fn lemma_missing_field(text: Seq<char>)
    requires
        record_fields(text).len() < 6,
    ensures
        Position::parse(text) == Err::<Position, FenError>(
            FenError::MalformedRecord(Field::nth(record_fields(text).len() as int)),
        ),
        Field::nth(record_fields(text).len() as int).position() == record_fields(text).len(),
{
}

/// In a piece placement of eight ranks, a rank that does not describe
/// exactly eight cells (nine, say) is a rank length mismatch, if its
/// characters are piece letters and digits from `1` to `8` and the ranks
/// before it are in order.
pub proof fn lemma_rank_length_mismatch(placement: Seq<char>, k: int)
    requires
        split_by(placement, '/').len() == 8,
        0 <= k < 8,
        forall|j: int| 0 <= j < k ==> parse_rank(#[trigger] split_by(placement, '/')[j]) is Ok,
        rank_characters(split_by(placement, '/')[k]),
        expand(split_by(placement, '/')[k]).len() != 8,
    ensures
        parse_placement(placement) == Err::<Seq<Seq<Option<Piece>>>, FenError>(
            FenError::RankLengthMismatch,
        ),
{
    lemma_parse_ranks_first_error(split_by(placement, '/'), k);
}

/// The text of a rank of eight pieces is their eight letters.
proof fn lemma_rank_of_pieces(cells: Seq<Option<Piece>>)
    requires
        cells.len() == 8,
        forall|i: int| 0 <= i < 8 ==> cells[i] is Some,
    ensures
        rank_text(cells) == Seq::new(8, |i: int| cells[i].unwrap().letter()),
{
    let e = Seq::<Option<Piece>>::empty();
    let c1 = e.push(cells[0]);
    let c2 = c1.push(cells[1]);
    let c3 = c2.push(cells[2]);
    let c4 = c3.push(cells[3]);
    let c5 = c4.push(cells[4]);
    let c6 = c5.push(cells[5]);
    let c7 = c6.push(cells[6]);
    let c8 = c7.push(cells[7]);
    assert(c8 =~= cells);
    lemma_rank_text_piece(e, cells[0].unwrap());
    lemma_rank_text_piece(c1, cells[1].unwrap());
    lemma_rank_text_piece(c2, cells[2].unwrap());
    lemma_rank_text_piece(c3, cells[3].unwrap());
    lemma_rank_text_piece(c4, cells[4].unwrap());
    lemma_rank_text_piece(c5, cells[5].unwrap());
    lemma_rank_text_piece(c6, cells[6].unwrap());
    lemma_rank_text_piece(c7, cells[7].unwrap());
}

/// The texts of the ranks of the initial position.
proof fn lemma_initial_ranks()
    ensures
        rank_text(back_rank(Color::Black)) == seq!['r', 'n', 'b', 'q', 'k', 'b', 'n', 'r'],
        rank_text(pawn_rank(Color::Black)) == seq!['p', 'p', 'p', 'p', 'p', 'p', 'p', 'p'],
        rank_text(empty_cells(8)) == seq!['8'],
        rank_text(pawn_rank(Color::White)) == seq!['P', 'P', 'P', 'P', 'P', 'P', 'P', 'P'],
        rank_text(back_rank(Color::White)) == seq!['R', 'N', 'B', 'Q', 'K', 'B', 'N', 'R'],
{
    assert(rank_text(back_rank(Color::Black)) =~= seq!['r', 'n', 'b', 'q', 'k', 'b', 'n', 'r']) by {
        lemma_rank_of_pieces(back_rank(Color::Black));
    }
    assert(rank_text(pawn_rank(Color::Black)) =~= seq!['p', 'p', 'p', 'p', 'p', 'p', 'p', 'p']) by {
        lemma_rank_of_pieces(pawn_rank(Color::Black));
    }
    assert(rank_text(pawn_rank(Color::White)) =~= seq!['P', 'P', 'P', 'P', 'P', 'P', 'P', 'P']) by {
        lemma_rank_of_pieces(pawn_rank(Color::White));
    }
    assert(rank_text(back_rank(Color::White)) =~= seq!['R', 'N', 'B', 'Q', 'K', 'B', 'N', 'R']) by {
        lemma_rank_of_pieces(back_rank(Color::White));
    }
    assert(rank_text(empty_cells(8)) =~= seq!['8']) by {
        lemma_rank_text_run(empty_cells(8), 8);
    }
}

/// The piece placement of the initial position.
proof fn lemma_initial_placement()
    ensures
        placement_text(Position::initial().rows)
            == "rnbqkbnr/pppppppp/8/8/8/8/PPPPPPPP/RNBQKBNR"@,
{
    let p = Position::initial();
    let slash = seq!['/'];
    let black = rank_text(back_rank(Color::Black));
    let black_pawns = rank_text(pawn_rank(Color::Black));
    let none = rank_text(empty_cells(8));
    let white_pawns = rank_text(pawn_rank(Color::White));
    let white = rank_text(back_rank(Color::White));
    let r1 = seq![black];
    let r2 = r1.push(black_pawns);
    let r3 = r2.push(none);
    let r4 = r3.push(none);
    let r5 = r4.push(none);
    let r6 = r5.push(none);
    let r7 = r6.push(white_pawns);
    let r8 = r7.push(white);
    assert(r8 =~= rank_texts(p.rows));
    let placement = placement_text(p.rows);
    assert(placement == black + slash + black_pawns + slash + none + slash + none + slash + none
        + slash + none + slash + white_pawns + slash + white) by {
        lemma_join_push(r1, black_pawns, '/');
        lemma_join_push(r2, none, '/');
        lemma_join_push(r3, none, '/');
        lemma_join_push(r4, none, '/');
        lemma_join_push(r5, none, '/');
        lemma_join_push(r6, white_pawns, '/');
        lemma_join_push(r7, white, '/');
    }
    lemma_initial_ranks();
    reveal_strlit("rnbqkbnr/pppppppp/8/8/8/8/PPPPPPPP/RNBQKBNR");
}

/// The record of the initial position is [`INITIAL_RECORD`], and
/// [`INITIAL_RECORD`] describes the initial position.
pub proof fn lemma_initial_record()
    ensures
        Position::initial().well_formed(),
        Position::initial().record() == INITIAL_RECORD@,
        Position::parse(INITIAL_RECORD@) == Ok::<Position, FenError>(Position::initial()),
{
    let p = Position::initial();
    let space = seq![' '];
    let placement = placement_text(p.rows);
    let castling = castling_text(p.castling);
    let f1 = seq![placement];
    let f2 = f1.push(p.active_color.token());
    let f3 = f2.push(castling);
    let f4 = f3.push(en_passant_text(p.en_passant_target));
    let f5 = f4.push(decimal_text(p.half_move_clock));
    let f6 = f5.push(decimal_text(p.full_move_number));
    assert(f6 =~= p.fields());
    assert(p.record() == placement + space + seq!['w'] + space + castling + space + seq!['-']
        + space + seq!['0'] + space + seq!['1']) by {
        lemma_join_push(f1, p.active_color.token(), ' ');
        lemma_join_push(f2, castling, ' ');
        lemma_join_push(f3, en_passant_text(p.en_passant_target), ' ');
        lemma_join_push(f4, decimal_text(p.half_move_clock), ' ');
        lemma_join_push(f5, decimal_text(p.full_move_number), ' ');
    }
    assert(p.record() =~= INITIAL_RECORD@) by {
        lemma_initial_placement();
        reveal_strlit("rnbqkbnr/pppppppp/8/8/8/8/PPPPPPPP/RNBQKBNR");
        reveal_strlit("rnbqkbnr/pppppppp/8/8/8/8/PPPPPPPP/RNBQKBNR w KQkq - 0 1");
    }
    lemma_write_then_read(p);
}

} // verus!
