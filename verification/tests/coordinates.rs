use chess_state::coord::{File, Position, Rank};

const FILES: [File; 8] = [
    File::A,
    File::B,
    File::C,
    File::D,
    File::E,
    File::F,
    File::G,
    File::H,
];

const RANKS: [Rank; 8] = [
    Rank::One,
    Rank::Two,
    Rank::Three,
    Rank::Four,
    Rank::Five,
    Rank::Six,
    Rank::Seven,
    Rank::Eight,
];

#[test]
fn test_file_to_char() {
    assert_eq!(File::A.to_char(), 'a');
    assert_eq!(File::B.to_char(), 'b');
    assert_eq!(File::C.to_char(), 'c');
    assert_eq!(File::D.to_char(), 'd');
    assert_eq!(File::E.to_char(), 'e');
    assert_eq!(File::F.to_char(), 'f');
    assert_eq!(File::G.to_char(), 'g');
    assert_eq!(File::H.to_char(), 'h');
}

#[test]
fn test_rank_to_char() {
    assert_eq!(Rank::One.to_char(), '1');
    assert_eq!(Rank::Two.to_char(), '2');
    assert_eq!(Rank::Three.to_char(), '3');
    assert_eq!(Rank::Four.to_char(), '4');
    assert_eq!(Rank::Five.to_char(), '5');
    assert_eq!(Rank::Six.to_char(), '6');
    assert_eq!(Rank::Seven.to_char(), '7');
    assert_eq!(Rank::Eight.to_char(), '8');
}

#[test]
fn test_position_to_index() {
    // Corner squares
    assert_eq!(Position::new(File::A, Rank::One).to_index(), 21);
    assert_eq!(Position::new(File::H, Rank::One).to_index(), 28);
    assert_eq!(Position::new(File::A, Rank::Eight).to_index(), 91);
    assert_eq!(Position::new(File::H, Rank::Eight).to_index(), 98);

    // Center square
    assert_eq!(Position::new(File::E, Rank::Four).to_index(), 55);
}

#[test]
fn test_position_display() {
    assert_eq!(Position::new(File::A, Rank::One).to_string(), "a1");
    assert_eq!(Position::new(File::E, Rank::Four).to_string(), "e4");
    assert_eq!(Position::new(File::H, Rank::Eight).to_string(), "h8");
}

#[test]
fn file_and_rank_numbers_round_trip() {
    for (i, file) in FILES.iter().enumerate() {
        assert_eq!(file.index() as usize, i);
        assert_eq!(File::from_index(i as u8), Some(*file));
    }
    for (i, rank) in RANKS.iter().enumerate() {
        assert_eq!(rank.index() as usize, i);
        assert_eq!(Rank::from_index(i as u8), Some(*rank));
    }
    assert_eq!(File::from_index(8), None);
    assert_eq!(Rank::from_index(8), None);
    assert_eq!(File::from_index(255), None);
}

#[test]
fn to_index_is_one_to_one_onto_the_playable_cells() {
    let mut seen = [false; 120];
    for rank in RANKS {
        for file in FILES {
            let pos = Position::new(file, rank);
            let index = pos.to_index() as usize;
            assert!(index < 120);
            assert!(!seen[index], "two squares share the cell {}", index);
            seen[index] = true;
            assert_eq!(Position::from_index(index as u8), Some(pos));
        }
    }
    for index in 0..=255u8 {
        let playable = (index as usize) < 120 && seen[index as usize];
        assert_eq!(Position::from_index(index).is_some(), playable);
        let row = index / 10;
        let column = index % 10;
        let inside = (2..10).contains(&row) && (1..9).contains(&column);
        assert_eq!(playable, inside);
    }
    assert_eq!(seen.iter().filter(|s| **s).count(), 64);
}

#[test]
fn ordinals_number_the_squares_rank_by_rank() {
    assert_eq!(Position::new(File::A, Rank::One).to_ordinal(), 0);
    assert_eq!(Position::new(File::H, Rank::One).to_ordinal(), 7);
    assert_eq!(Position::new(File::A, Rank::Two).to_ordinal(), 8);
    assert_eq!(Position::new(File::E, Rank::Four).to_ordinal(), 28);
    assert_eq!(Position::new(File::H, Rank::Eight).to_ordinal(), 63);
    for k in 0..64u8 {
        let pos = Position::from_ordinal(k).expect("a square for each number below 64");
        assert_eq!(pos.to_ordinal(), k);
        assert_eq!(pos.to_index(), (k / 8 + 2) * 10 + k % 8 + 1);
    }
    assert_eq!(Position::from_ordinal(64), None);
    assert_eq!(Position::from_ordinal(255), None);
}

#[test]
fn border_cells_have_no_square() {
    for index in [0u8, 9, 10, 19, 20, 29, 30, 39, 90, 99, 100, 110, 119, 120, 200] {
        assert_eq!(Position::from_index(index), None);
    }
    assert_eq!(
        Position::from_index(21),
        Some(Position::new(File::A, Rank::One))
    );
    assert_eq!(
        Position::from_index(98),
        Some(Position::new(File::H, Rank::Eight))
    );
}

#[test]
fn every_square_is_written_as_letter_and_digit() {
    for rank in RANKS {
        for file in FILES {
            let text = Position::new(file, rank).to_string();
            let expected: String = [file.to_char(), rank.to_char()].iter().collect();
            assert_eq!(text, expected);
            assert_eq!(text.chars().count(), 2);
        }
    }
}
