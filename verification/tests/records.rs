use chess_fen::castling::CastlingRights;
use chess_fen::position::INITIAL_RECORD;
use chess_fen::{Color, FenError, Field, Game, Piece, Square};

const MIDDLE: &str = "rnbqkb1r/pp3ppp/2pp1n2/1B2p3/4P3/2N2N2/PPPP1PPP/R1BQ1RK1 b kq - 1 5";
const EN_PASSANT: &str = "rnbk1b1r/ppNq1ppp/8/1B6/3Pp3/5N2/PPP2PPP/R1BQK2R b KQ d3 0 8";

fn with_placement(placement: &str) -> String {
    format!("{placement} w KQkq - 0 1")
}

fn error_of(record: &str) -> FenError {
    match Game::from_fen(record) {
        Ok(game) => panic!("{record:?} was read as {game:?}"),
        Err(error) => error,
    }
}

#[test]
fn initial_record_round_trips() {
    let game = Game::from_fen(INITIAL_RECORD).unwrap();
    assert_eq!(game.to_fen(), INITIAL_RECORD);
    assert_eq!(
        INITIAL_RECORD,
        "rnbqkbnr/pppppppp/8/8/8/8/PPPPPPPP/RNBQKBNR w KQkq - 0 1"
    );
}

#[test]
fn default_is_the_initial_position() {
    assert_eq!(Game::default(), Game::from_fen(INITIAL_RECORD).unwrap());
    assert_eq!(Game::default().to_fen(), INITIAL_RECORD);
}

#[test]
fn middle_game_record_round_trips() {
    let game = Game::from_fen(MIDDLE).unwrap();
    assert_eq!(game.active_color, Color::Black);
    assert_eq!(
        game.castling_rights(),
        CastlingRights {
            white_kingside: false,
            white_queenside: false,
            black_kingside: true,
            black_queenside: true,
        }
    );
    assert_eq!(game.to_fen(), MIDDLE);
}

#[test]
fn en_passant_target_is_kept() {
    let game = Game::from_fen(EN_PASSANT).unwrap();
    assert_eq!(game.en_passant_target, Some(Square::D3));
    assert_eq!(game.to_fen(), EN_PASSANT);
}

#[test]
fn en_passant_target_may_be_on_any_rank() {
    let record = "8/8/8/8/8/8/8/8 w - e4 0 1";
    let game = Game::from_fen(record).unwrap();
    assert_eq!(game.en_passant_target, Some(Square::E4));
    assert_eq!(game.to_fen(), record);
    let record = "8/8/8/8/8/8/8/8 b - h8 0 1";
    assert_eq!(Game::from_fen(record).unwrap().en_passant_target, Some(Square::H8));
    let record = "8/8/8/8/8/8/8/8 b - a1 0 1";
    assert_eq!(Game::from_fen(record).unwrap().en_passant_target, Some(Square::A1));
}

#[test]
fn no_castling_right_is_written_as_a_dash() {
    let mut game = Game::default();
    game.white_can_castle_kingside = false;
    game.white_can_castle_queenside = false;
    game.black_can_castle_kingside = false;
    game.black_can_castle_queenside = false;
    assert_eq!(game.castleable_to_string(), "-");
    assert_eq!(
        game.to_fen(),
        "rnbqkbnr/pppppppp/8/8/8/8/PPPPPPPP/RNBQKBNR w - - 0 1"
    );
}

#[test]
fn castling_letters_keep_their_order() {
    let mut game = Game::default();
    for bits in 1..16u8 {
        game.white_can_castle_kingside = bits & 1 != 0;
        game.white_can_castle_queenside = bits & 2 != 0;
        game.black_can_castle_kingside = bits & 4 != 0;
        game.black_can_castle_queenside = bits & 8 != 0;
        let mut expected = String::new();
        if bits & 1 != 0 {
            expected.push('K');
        }
        if bits & 2 != 0 {
            expected.push('Q');
        }
        if bits & 4 != 0 {
            expected.push('k');
        }
        if bits & 8 != 0 {
            expected.push('q');
        }
        assert_eq!(game.castleable_to_string(), expected);
        let read = Game::from_fen(&game.to_fen()).unwrap();
        assert_eq!(read, game);
    }
}

#[test]
fn every_board_cell_is_addressed_from_the_top_left() {
    let game = Game::from_fen("r6n/8/8/8/8/8/8/B6Q w - - 0 1").unwrap();
    assert_eq!(game.board[0][0], Some(Piece::Rook(Color::Black)));
    assert_eq!(game.board[0][7], Some(Piece::Knight(Color::Black)));
    assert_eq!(game.board[7][0], Some(Piece::Bishop(Color::White)));
    assert_eq!(game.board[7][7], Some(Piece::Queen(Color::White)));
    let occupied = game
        .board
        .iter()
        .map(|row| row.iter().filter(|cell| cell.is_some()).count())
        .sum::<usize>();
    assert_eq!(occupied, 4);
}

#[test]
fn a_digit_advances_by_its_value_and_a_letter_by_one() {
    let board = Game::assemble_board("1p2P3/8/8/8/8/8/8/k7").unwrap();
    let top = [
        None,
        Some(Piece::Pawn(Color::Black)),
        None,
        None,
        Some(Piece::Pawn(Color::White)),
        None,
        None,
        None,
    ];
    assert_eq!(board[0], top);
    assert_eq!(board[1], [None; 8]);
    assert_eq!(board[7][0], Some(Piece::King(Color::Black)));
    assert_eq!(board[7][1..], [None; 7]);
}

#[test]
fn split_runs_are_read_and_written_as_one() {
    let game = Game::from_fen("44/1232/p7/7p/3p4/2p1p3/11111111/p1p1p1p1 w - - 0 1").unwrap();
    assert_eq!(
        game.to_fen(),
        "8/8/p7/7p/3p4/2p1p3/8/p1p1p1p1 w - - 0 1"
    );
    assert_eq!(
        game.board_to_piece_string(),
        "8/8/p7/7p/3p4/2p1p3/8/p1p1p1p1"
    );
}

#[test]
fn reading_what_was_written_changes_nothing() {
    let records = [
        INITIAL_RECORD,
        MIDDLE,
        EN_PASSANT,
        "44/1232/p7/7p/3p4/2p1p3/11111111/p1p1p1p1 w - - +007 00012",
        "8/8/8/8/8/8/8/8 b Kq a6 255 65535",
        "KKKKKKKK/QQQQQQQQ/pppppppp/8/8/nnnnnnnn/rrrrrrrr/kkkkkkkk w Qk - 100 1",
    ];
    for record in records {
        let game = Game::from_fen(record).unwrap();
        let written = game.to_fen();
        let again = Game::from_fen(&written).unwrap();
        assert_eq!(again, game, "{record}");
        assert_eq!(again.to_fen(), written, "{record}");
    }
}

#[test]
fn counters_are_decimal_numbers() {
    let game = Game::from_fen("8/8/8/8/8/8/8/8 w - - 255 65535").unwrap();
    assert_eq!(game.half_move_clock, 255);
    assert_eq!(game.full_move_number, 65535);
    assert_eq!(game.to_fen(), "8/8/8/8/8/8/8/8 w - - 255 65535");
    let game = Game::from_fen("8/8/8/8/8/8/8/8 w - - 0 1").unwrap();
    assert_eq!((game.half_move_clock, game.full_move_number), (0, 1));
    let game = Game::from_fen("8/8/8/8/8/8/8/8 w - - 007 +42").unwrap();
    assert_eq!((game.half_move_clock, game.full_move_number), (7, 42));
    assert_eq!(game.to_fen(), "8/8/8/8/8/8/8/8 w - - 7 42");
    let game = Game::from_fen("8/8/8/8/8/8/8/8 w - - 109 1010").unwrap();
    assert_eq!((game.half_move_clock, game.full_move_number), (109, 1010));
    assert_eq!(game.to_fen(), "8/8/8/8/8/8/8/8 w - - 109 1010");
}

#[test]
fn missing_fields_are_named() {
    assert_eq!(error_of(""), FenError::MalformedRecord(Field::PiecePlacement));
    assert_eq!(
        error_of("8/8/8/8/8/8/8/8"),
        FenError::MalformedRecord(Field::ActiveColor)
    );
    assert_eq!(
        error_of("8/8/8/8/8/8/8/8 w"),
        FenError::MalformedRecord(Field::CastlingAvailability)
    );
    assert_eq!(
        error_of("8/8/8/8/8/8/8/8 w -"),
        FenError::MalformedRecord(Field::EnPassantTarget)
    );
    assert_eq!(
        error_of("8/8/8/8/8/8/8/8 w - -"),
        FenError::MalformedRecord(Field::HalfMoveClock)
    );
    assert_eq!(
        error_of("8/8/8/8/8/8/8/8 w - - 0"),
        FenError::MalformedRecord(Field::FullMoveNumber)
    );
}

#[test]
fn a_missing_field_is_found_before_any_field_is_read() {
    assert_eq!(
        error_of("w KQkq - 0 1"),
        FenError::MalformedRecord(Field::FullMoveNumber)
    );
    assert_eq!(
        error_of("Xnbqkbnr/pppppppp/8/8/8/8/PPPPPPPP/RNBQKBNR x"),
        FenError::MalformedRecord(Field::CastlingAvailability)
    );
    assert_eq!(error_of(" "), FenError::MalformedRecord(Field::CastlingAvailability));
}

#[test]
fn the_number_of_ranks_must_be_eight() {
    assert_eq!(error_of(&with_placement("8/8/8/8/8/8/8")), FenError::RankCountMismatch);
    assert_eq!(error_of(&with_placement("8/8/8/8/8/8/8/8/8")), FenError::RankCountMismatch);
    assert_eq!(error_of(&with_placement("8/8/8/8/8/8/8/8/")), FenError::RankCountMismatch);
    assert_eq!(error_of(&with_placement("/8/8/8/8/8/8/8/8")), FenError::RankCountMismatch);
    assert_eq!(error_of(&with_placement("8")), FenError::RankCountMismatch);
    assert_eq!(error_of(&with_placement("X/9")), FenError::RankCountMismatch);
    assert_eq!(error_of(" w KQkq - 0 1"), FenError::RankCountMismatch);
}

#[test]
fn a_rank_must_describe_eight_files() {
    assert_eq!(
        error_of(&with_placement("rnbqkbnrr/pppppppp/8/8/8/8/PPPPPPPP/RNBQKBNR")),
        FenError::RankLengthMismatch
    );
    assert_eq!(
        error_of(&with_placement("rnbqkbnr/pppppppp/8/8/8/8/PPPPPPPP/RNBQKBN")),
        FenError::RankLengthMismatch
    );
    assert_eq!(error_of(&with_placement("8/8/8/8/81/8/8/8")), FenError::RankLengthMismatch);
    assert_eq!(error_of(&with_placement("8/8/8/8/7/8/8/8")), FenError::RankLengthMismatch);
    assert_eq!(error_of(&with_placement("8/8/8/8//8/8/8")), FenError::RankLengthMismatch);
    assert_eq!(error_of(&with_placement("8/8/8/8/p8/8/8/8")), FenError::RankLengthMismatch);
    assert_eq!(
        error_of(&with_placement("8/8/8/8/88888888888888888888888888888888/8/8/8")),
        FenError::RankLengthMismatch
    );
}

#[test]
fn a_rank_holds_piece_letters_and_digits_from_one_to_eight() {
    assert_eq!(
        error_of("Xnbqkbnr/pppppppp/8/8/8/8/PPPPPPPP/RNBQKBNR w KQkq - 0 1"),
        FenError::InvalidPieceToken
    );
    assert_eq!(
        error_of("Xnbqkbnr/pppppppp/9/8/8/8/PPPPPPPP/RNBQKBNR w KQkq - 0 1"),
        FenError::InvalidPieceToken
    );
    assert_eq!(error_of(&with_placement("8/8/8/8/9/8/8/8")), FenError::InvalidPieceToken);
    assert_eq!(error_of(&with_placement("8/8/8/8/08/8/8/8")), FenError::InvalidPieceToken);
    assert_eq!(error_of(&with_placement("8/8/8/8/7-/8/8/8")), FenError::InvalidPieceToken);
    assert_eq!(error_of(&with_placement("8/8/8/8/7\u{e9}/8/8/8")), FenError::InvalidPieceToken);
}

#[test]
fn the_first_rank_at_fault_decides_the_error() {
    assert_eq!(error_of(&with_placement("7/8/8/8/8/8/8/x7")), FenError::RankLengthMismatch);
    assert_eq!(error_of(&with_placement("x7/8/8/8/8/8/8/7")), FenError::InvalidPieceToken);
    assert_eq!(error_of(&with_placement("8/8/8/8/8/8/8/ppppppppx")), FenError::InvalidPieceToken);
    assert_eq!(error_of(&with_placement("8/8/8/8/8/8/8/xppppppppp")), FenError::InvalidPieceToken);
}

#[test]
fn the_first_field_at_fault_decides_the_error() {
    assert_eq!(error_of("9/8/8/8/8/8/8/8 x KK e9 256 0"), FenError::InvalidPieceToken);
    assert_eq!(error_of("8/8/8/8/8/8/8/8 x KK e9 256 0"), FenError::InvalidActiveColor);
    assert_eq!(error_of("8/8/8/8/8/8/8/8 w KK e9 256 0"), FenError::InvalidCastlingToken);
    assert_eq!(error_of("8/8/8/8/8/8/8/8 w K e9 256 0"), FenError::InvalidEnPassantSquare);
    assert_eq!(error_of("8/8/8/8/8/8/8/8 w K e3 256 0"), FenError::InvalidHalfMoveClock);
    assert_eq!(error_of("8/8/8/8/8/8/8/8 w K e3 255 0"), FenError::InvalidFullMoveNumber);
}

#[test]
fn the_active_color_is_w_or_b() {
    for color in ["", "W", "B", "x", "wb", "white", "-"] {
        let record = format!("8/8/8/8/8/8/8/8 {color} - - 0 1");
        assert_eq!(error_of(&record), FenError::InvalidActiveColor, "{color:?}");
    }
    assert_eq!(
        Game::from_fen("8/8/8/8/8/8/8/8 w - - 0 1").unwrap().active_color,
        Color::White
    );
    assert_eq!(
        Game::from_fen("8/8/8/8/8/8/8/8 b - - 0 1").unwrap().active_color,
        Color::Black
    );
}

#[test]
fn the_castling_availability_is_a_dash_or_ordered_letters() {
    for castling in ["", "--", "K-", "-K", "KK", "QK", "kK", "qk", "KQkqK", "KQkqq", "x", "Kx", "KQ kq"] {
        let record = format!("8/8/8/8/8/8/8/8 w {castling} - 0 1");
        assert_ne!(Game::from_fen(&record).ok().map(|game| game.to_fen()), Some(record.clone()));
        if !castling.contains(' ') {
            assert_eq!(error_of(&record), FenError::InvalidCastlingToken, "{castling:?}");
        }
    }
    for castling in ["-", "K", "Q", "k", "q", "KQ", "Kk", "Kq", "Qk", "Qq", "kq", "KQk", "KQq", "Kkq", "Qkq", "KQkq"] {
        let record = format!("8/8/8/8/8/8/8/8 w {castling} - 0 1");
        let game = Game::from_fen(&record).unwrap();
        assert_eq!(game.white_can_castle_kingside, castling.contains('K'));
        assert_eq!(game.white_can_castle_queenside, castling.contains('Q'));
        assert_eq!(game.black_can_castle_kingside, castling.contains('k'));
        assert_eq!(game.black_can_castle_queenside, castling.contains('q'));
        assert_eq!(game.to_fen(), record);
    }
}

#[test]
fn the_en_passant_target_is_a_dash_or_a_square() {
    for target in ["", "--", "e", "e9", "e0", "i3", "E3", "3e", "e33", "e3 ", "\u{e9}3"] {
        let record = format!("8/8/8/8/8/8/8/8 w - {target} 0 1");
        if !target.contains(' ') {
            assert_eq!(error_of(&record), FenError::InvalidEnPassantSquare, "{target:?}");
        } else {
            assert!(Game::from_fen(&record).is_err());
        }
    }
}

#[test]
fn the_half_move_clock_fits_eight_bits() {
    for clock in ["", "+", "-", "-0", "-1", "x", "1x", "x1", "256", "0256", "1000", "99999999999999999999999", "1.0", "++1", "1+"] {
        let record = format!("8/8/8/8/8/8/8/8 w - - {clock} 1");
        assert_eq!(error_of(&record), FenError::InvalidHalfMoveClock, "{clock:?}");
    }
    for (clock, value) in [("0", 0), ("00", 0), ("+0", 0), ("9", 9), ("10", 10), ("255", 255), ("+255", 255), ("0000000000000000000000255", 255)] {
        let record = format!("8/8/8/8/8/8/8/8 w - - {clock} 1");
        assert_eq!(Game::from_fen(&record).unwrap().half_move_clock, value, "{clock:?}");
    }
}

#[test]
fn the_full_move_number_is_positive_and_fits_sixteen_bits() {
    for number in ["", "+", "0", "00", "+0", "-1", "x", "65536", "100000", "1 ", "1 2", "1 w", " 1"] {
        let record = format!("8/8/8/8/8/8/8/8 w - - 0 {number}");
        assert!(Game::from_fen(&record).is_err(), "{number:?}");
        if !number.starts_with(' ') {
            assert_eq!(error_of(&record), FenError::InvalidFullMoveNumber, "{number:?}");
        }
    }
    for (number, value) in [("1", 1), ("01", 1), ("+1", 1), ("256", 256), ("65535", 65535), ("12345", 12345)] {
        let record = format!("8/8/8/8/8/8/8/8 w - - 0 {number}");
        assert_eq!(Game::from_fen(&record).unwrap().full_move_number, value, "{number:?}");
    }
}

#[test]
fn fields_are_separated_by_single_spaces() {
    assert_eq!(
        error_of("8/8/8/8/8/8/8/8  w - - 0 1"),
        FenError::InvalidActiveColor
    );
    assert_eq!(
        error_of("8/8/8/8/8/8/8/8 w  - - 0 1"),
        FenError::InvalidCastlingToken
    );
    assert_eq!(
        error_of("8/8/8/8/8/8/8/8\tw\t-\t-\t0\t1"),
        FenError::MalformedRecord(Field::ActiveColor)
    );
    assert_eq!(
        error_of("8/8/8/8/8/8/8/8 w - - 0 1 "),
        FenError::InvalidFullMoveNumber
    );
    assert_eq!(
        error_of("8/8/8/8/8/8/8/8 w - - 0 1\n"),
        FenError::InvalidFullMoveNumber
    );
    assert_eq!(
        error_of("8/8/8/8/8/8/8/8 w - - 0 1 and more"),
        FenError::InvalidFullMoveNumber
    );
}

#[test]
fn every_error_is_about_a_field() {
    let cases = [
        (FenError::MalformedRecord(Field::HalfMoveClock), Field::HalfMoveClock),
        (FenError::MalformedRecord(Field::PiecePlacement), Field::PiecePlacement),
        (FenError::RankCountMismatch, Field::PiecePlacement),
        (FenError::RankLengthMismatch, Field::PiecePlacement),
        (FenError::InvalidPieceToken, Field::PiecePlacement),
        (FenError::InvalidActiveColor, Field::ActiveColor),
        (FenError::InvalidCastlingToken, Field::CastlingAvailability),
        (FenError::InvalidEnPassantSquare, Field::EnPassantTarget),
        (FenError::InvalidHalfMoveClock, Field::HalfMoveClock),
        (FenError::InvalidFullMoveNumber, Field::FullMoveNumber),
    ];
    for (error, field) in cases {
        assert_eq!(error.field(), field);
    }
    let fields = [
        Field::PiecePlacement,
        Field::ActiveColor,
        Field::CastlingAvailability,
        Field::EnPassantTarget,
        Field::HalfMoveClock,
        Field::FullMoveNumber,
    ];
    for (index, field) in fields.into_iter().enumerate() {
        assert_eq!(Field::at(index), field);
    }
    assert_eq!(Field::at(6), Field::FullMoveNumber);
}

#[test]
fn no_move_is_accepted() {
    let mut game = Game::default();
    assert!(!game.make_move(Square::E2, Square::E4));
    assert_eq!(game, Game::default());
    assert!(!game.make_move(Square::A1, Square::H8));
    assert!(!game.make_move(Square::E2, Square::E2));
    assert_eq!(game.to_fen(), INITIAL_RECORD);
    let mut game = Game::from_fen(EN_PASSANT).unwrap();
    assert!(!game.make_move(Square::E4, Square::D3));
    assert_eq!(game.to_fen(), EN_PASSANT);
}

#[test]
fn a_board_is_read_without_the_rest_of_the_record() {
    assert_eq!(
        Game::assemble_board("rnbqkbnr/pppppppp/8/8/8/8/PPPPPPPP/RNBQKBNR"),
        Ok(Game::default().board)
    );
    assert_eq!(Game::assemble_board(""), Err(FenError::RankCountMismatch));
    assert_eq!(
        Game::assemble_board("8/8/8/8/8/8/8/8 w"),
        Err(FenError::InvalidPieceToken)
    );
    assert_eq!(
        Game::assemble_board("8/8/8/8/8/8/8/9"),
        Err(FenError::InvalidPieceToken)
    );
    assert_eq!(
        Game::assemble_board("8/8/8/8/8/8/8/ppppppppp"),
        Err(FenError::RankLengthMismatch)
    );
}

#[test]
fn squares_count_ranks_from_the_bottom_of_the_board() {
    let game = Game::default();
    assert_eq!(game.piece_at(Square::A1), Some(Piece::Rook(Color::White)));
    assert_eq!(game.piece_at(Square::E1), Some(Piece::King(Color::White)));
    assert_eq!(game.piece_at(Square::D1), Some(Piece::Queen(Color::White)));
    assert_eq!(game.piece_at(Square::H2), Some(Piece::Pawn(Color::White)));
    assert_eq!(game.piece_at(Square::E4), None);
    assert_eq!(game.piece_at(Square::C7), Some(Piece::Pawn(Color::Black)));
    assert_eq!(game.piece_at(Square::D8), Some(Piece::Queen(Color::Black)));
    assert_eq!(game.piece_at(Square::G8), Some(Piece::Knight(Color::Black)));
    let game = Game::from_fen(EN_PASSANT).unwrap();
    assert_eq!(game.piece_at(Square::D4), Some(Piece::Pawn(Color::White)));
    assert_eq!(game.piece_at(Square::E4), Some(Piece::Pawn(Color::Black)));
    assert_eq!(game.piece_at(Square::D3), None);
    assert_eq!(game.piece_at(Square::C7), Some(Piece::Knight(Color::White)));
    assert_eq!(game.piece_at(Square::B5), game.board[3][1]);
    let game = Game::from_fen("7k/8/8/8/8/8/8/K7 w - - 0 1").unwrap();
    assert_eq!(game.piece_at(Square::A1), Some(Piece::King(Color::White)));
    assert_eq!(game.piece_at(Square::H8), Some(Piece::King(Color::Black)));
    assert_eq!(game.piece_at(Square::A8), None);
    assert_eq!(game.piece_at(Square::H1), None);
}

#[test]
fn different_positions_have_different_records() {
    let records = [INITIAL_RECORD, MIDDLE, EN_PASSANT, "8/8/8/8/8/8/8/8 w - - 0 1"];
    for first in records {
        for second in records {
            let same = Game::from_fen(first).unwrap() == Game::from_fen(second).unwrap();
            assert_eq!(same, first == second);
        }
    }
    let mut game = Game::default();
    let before = game.to_fen();
    game.board[4][4] = Some(Piece::Pawn(Color::White));
    game.board[6][4] = None;
    assert_ne!(game.to_fen(), before);
    assert_eq!(
        game.to_fen(),
        "rnbqkbnr/pppppppp/8/8/4P3/8/PPPP1PPP/RNBQKBNR w KQkq - 0 1"
    );
}
