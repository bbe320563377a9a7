use chess_fen::{Color, FenError, Game, Piece, Square};

struct Dice(u64);

impl Dice {
    fn roll(&mut self, sides: u64) -> u64 {
        self.0 ^= self.0 << 13;
        self.0 ^= self.0 >> 7;
        self.0 ^= self.0 << 17;
        self.0 % sides
    }
}

fn piece(index: u64) -> Piece {
    let color = if index < 6 { Color::White } else { Color::Black };
    match index % 6 {
        0 => Piece::Pawn(color),
        1 => Piece::Knight(color),
        2 => Piece::Bishop(color),
        3 => Piece::Rook(color),
        4 => Piece::Queen(color),
        _ => Piece::King(color),
    }
}

fn position(dice: &mut Dice) -> Game {
    let mut game = Game::default();
    let density = dice.roll(14);
    for row in 0..8 {
        for column in 0..8 {
            game.board[row][column] = if dice.roll(13) < density {
                Some(piece(dice.roll(12)))
            } else {
                None
            };
        }
    }
    game.active_color = if dice.roll(2) == 0 { Color::White } else { Color::Black };
    game.white_can_castle_kingside = dice.roll(2) == 0;
    game.white_can_castle_queenside = dice.roll(2) == 0;
    game.black_can_castle_kingside = dice.roll(2) == 0;
    game.black_can_castle_queenside = dice.roll(2) == 0;
    game.en_passant_target = match dice.roll(3) {
        0 => None,
        _ => Square::from_index(dice.roll(64) as u8),
    };
    game.half_move_clock = dice.roll(256) as u8;
    game.full_move_number = 1 + dice.roll(65535) as u16;
    game
}

fn expected_rank(row: &[Option<Piece>; 8]) -> String {
    let mut text = String::new();
    let mut column = 0;
    while column < 8 {
        match row[column] {
            Some(piece) => {
                text.push(piece.to_char());
                column += 1;
            }
            None => {
                let start = column;
                while column < 8 && row[column].is_none() {
                    column += 1;
                }
                text.push_str(&(column - start).to_string());
            }
        }
    }
    text
}

#[test]
fn written_positions_are_read_back() {
    let mut dice = Dice(0x9E37_79B9_7F4A_7C15);
    for _ in 0..2000 {
        let game = position(&mut dice);
        let record = game.to_fen();
        assert_eq!(Game::from_fen(&record), Ok(game.clone()), "{record}");
        let fields: Vec<&str> = record.split(' ').collect();
        assert_eq!(fields.len(), 6, "{record}");
        let ranks: Vec<String> = game.board.iter().map(expected_rank).collect();
        assert_eq!(fields[0], ranks.join("/"), "{record}");
        assert_eq!(fields[1], game.active_color.to_string());
        assert_eq!(fields[2], game.castleable_to_string());
        assert_eq!(
            fields[3],
            game.en_passant_target.map_or(String::from("-"), |square| square.to_string())
        );
        assert_eq!(fields[4], game.half_move_clock.to_string());
        assert_eq!(fields[5], game.full_move_number.to_string());
    }
}

#[test]
fn every_text_is_read_or_refused_for_a_field() {
    let alphabet: Vec<char> = "rnbqkpRNBQKP12345678/ wb-KQkqacefh0+9xX\t\u{e9}".chars().collect();
    let mut dice = Dice(0x2545_F491_4F6C_DD1D);
    let mut read = 0;
    for round in 0..20000 {
        let mut text: Vec<char> = if round % 2 == 0 {
            position(&mut dice).to_fen().chars().collect()
        } else {
            Vec::new()
        };
        for _ in 0..dice.roll(4) {
            let letter = alphabet[dice.roll(alphabet.len() as u64) as usize];
            let at = dice.roll(text.len() as u64 + 1) as usize;
            match dice.roll(3) {
                0 => text.insert(at, letter),
                1 if at < text.len() => text[at] = letter,
                _ if at < text.len() => {
                    text.remove(at);
                }
                _ => text.push(letter),
            }
        }
        let text: String = text.into_iter().collect();
        match Game::from_fen(&text) {
            Ok(game) => {
                read += 1;
                assert!(game.full_move_number >= 1, "{text:?}");
                let record = game.to_fen();
                assert_eq!(Game::from_fen(&record), Ok(game), "{text:?}");
                assert_eq!(text.split(' ').count(), 6, "{text:?}");
            }
            Err(FenError::MalformedRecord(field)) => {
                let count = if text.is_empty() { 0 } else { text.split(' ').count() };
                assert!(count < 6, "{text:?}");
                assert_eq!(chess_fen::Field::at(count), field, "{text:?}");
            }
            Err(error) => {
                assert!(text.split(' ').count() >= 6, "{text:?}");
                let at = error.field();
                assert_ne!(FenError::MalformedRecord(at), error);
            }
        }
    }
    assert!(read > 1000);
}
