use chess_state::board::{back_rank, Board};
use chess_state::castling::{CastlingRight, ALL_CASTLING_RIGHTS};
use chess_state::coord::{File, Position, Rank};
use chess_state::grid::Square;
use chess_state::piece::{Color, Piece, PieceKind};
use chess_state::zobrist::ZobristKey;

#[test]
fn test_board_initialization() {
    let board = Board::new();

    // Verify turn is initialized to White
    assert!(matches!(board.turn(), Color::White));

    // Verify en_passant_target is None
    assert!(board.en_passant_target().is_none());

    // Verify off-board squares are OffBoard (sentinel squares)
    // Check first row (indices 0-9)
    for i in 0..10 {
        assert!(matches!(board.squares()[i], Square::OffBoard));
    }

    // Check last two rows (indices 100-119)
    for i in 100..120 {
        assert!(matches!(board.squares()[i], Square::OffBoard));
    }

    // Verify valid board squares are either Empty or Occupied
    for rank in 0..8 {
        for file in 0..8 {
            let index = ((rank + 2) * 10 + (file + 1)) as usize;
            assert!(
                matches!(board.squares()[index], Square::Empty | Square::Occupied(_)),
                "Square at index {} should be Empty or Occupied",
                index
            );
        }
    }
}

#[test]
fn test_board_kings_initialization() {
    let board = Board::new();

    // Verify kings are initialized at proper starting positions
    // White king at e1
    assert_eq!(board.kings().white.file, File::E);
    assert_eq!(board.kings().white.rank, Rank::One);

    // Black king at e8
    assert_eq!(board.kings().black.file, File::E);
    assert_eq!(board.kings().black.rank, Rank::Eight);
}

#[test]
fn test_board_piece_counts_initialization() {
    let board = Board::new();

    // The counters are those of the starting board
    assert_eq!(board.pieces().white.pawns, 8);
    assert_eq!(board.pieces().white.knights, 2);
    assert_eq!(board.pieces().black.pawns, 8);
    assert_eq!(board.pieces().both.queens, 2);

    // Big pieces are all but the pawns, major ones rooks and queens,
    // minor ones knights and bishops
    assert_eq!(board.big_pieces().white, 8);
    assert_eq!(board.major_pieces().black, 3);
    assert_eq!(board.minor_pieces().both, 8);
}

#[test]
fn test_board_starting_position() {
    let board = Board::new();

    // Helper to get piece at position
    let get_piece = |file: File, rank: Rank| {
        let pos = Position::new(file, rank);
        let index = pos.to_index() as usize;
        board.squares()[index]
    };

    // Test white back rank
    assert!(matches!(
        get_piece(File::A, Rank::One),
        Square::Occupied(Piece {
            kind: PieceKind::Rook,
            color: Color::White
        })
    ));
    assert!(matches!(
        get_piece(File::B, Rank::One),
        Square::Occupied(Piece {
            kind: PieceKind::Knight,
            color: Color::White
        })
    ));
    assert!(matches!(
        get_piece(File::C, Rank::One),
        Square::Occupied(Piece {
            kind: PieceKind::Bishop,
            color: Color::White
        })
    ));
    assert!(matches!(
        get_piece(File::D, Rank::One),
        Square::Occupied(Piece {
            kind: PieceKind::Queen,
            color: Color::White
        })
    ));
    assert!(matches!(
        get_piece(File::E, Rank::One),
        Square::Occupied(Piece {
            kind: PieceKind::King,
            color: Color::White
        })
    ));
    assert!(matches!(
        get_piece(File::F, Rank::One),
        Square::Occupied(Piece {
            kind: PieceKind::Bishop,
            color: Color::White
        })
    ));
    assert!(matches!(
        get_piece(File::G, Rank::One),
        Square::Occupied(Piece {
            kind: PieceKind::Knight,
            color: Color::White
        })
    ));
    assert!(matches!(
        get_piece(File::H, Rank::One),
        Square::Occupied(Piece {
            kind: PieceKind::Rook,
            color: Color::White
        })
    ));

    // Test white pawns
    for file in [
        File::A,
        File::B,
        File::C,
        File::D,
        File::E,
        File::F,
        File::G,
        File::H,
    ] {
        assert!(matches!(
            get_piece(file, Rank::Two),
            Square::Occupied(Piece {
                kind: PieceKind::Pawn,
                color: Color::White
            })
        ));
    }

    // Test black back rank
    assert!(matches!(
        get_piece(File::A, Rank::Eight),
        Square::Occupied(Piece {
            kind: PieceKind::Rook,
            color: Color::Black
        })
    ));
    assert!(matches!(
        get_piece(File::B, Rank::Eight),
        Square::Occupied(Piece {
            kind: PieceKind::Knight,
            color: Color::Black
        })
    ));
    assert!(matches!(
        get_piece(File::C, Rank::Eight),
        Square::Occupied(Piece {
            kind: PieceKind::Bishop,
            color: Color::Black
        })
    ));
    assert!(matches!(
        get_piece(File::D, Rank::Eight),
        Square::Occupied(Piece {
            kind: PieceKind::Queen,
            color: Color::Black
        })
    ));
    assert!(matches!(
        get_piece(File::E, Rank::Eight),
        Square::Occupied(Piece {
            kind: PieceKind::King,
            color: Color::Black
        })
    ));
    assert!(matches!(
        get_piece(File::F, Rank::Eight),
        Square::Occupied(Piece {
            kind: PieceKind::Bishop,
            color: Color::Black
        })
    ));
    assert!(matches!(
        get_piece(File::G, Rank::Eight),
        Square::Occupied(Piece {
            kind: PieceKind::Knight,
            color: Color::Black
        })
    ));
    assert!(matches!(
        get_piece(File::H, Rank::Eight),
        Square::Occupied(Piece {
            kind: PieceKind::Rook,
            color: Color::Black
        })
    ));

    // Test black pawns
    for file in [
        File::A,
        File::B,
        File::C,
        File::D,
        File::E,
        File::F,
        File::G,
        File::H,
    ] {
        assert!(matches!(
            get_piece(file, Rank::Seven),
            Square::Occupied(Piece {
                kind: PieceKind::Pawn,
                color: Color::Black
            })
        ));
    }

    // Test empty squares (ranks 3-6)
    for rank in [Rank::Three, Rank::Four, Rank::Five, Rank::Six] {
        for file in [
            File::A,
            File::B,
            File::C,
            File::D,
            File::E,
            File::F,
            File::G,
            File::H,
        ] {
            assert!(matches!(get_piece(file, rank), Square::Empty));
        }
    }
}

#[test]
fn a_new_board_has_all_rights_and_no_past() {
    let board = Board::new();
    assert_eq!(board.castling_rights(), ALL_CASTLING_RIGHTS);
    assert_eq!(board.castling_rights(), 15);
    assert!(board.has_castling_right(CastlingRight::WhiteKingSide));
    assert!(board.has_castling_right(CastlingRight::WhiteQueenSide));
    assert!(board.has_castling_right(CastlingRight::BlackKingSide));
    assert!(board.has_castling_right(CastlingRight::BlackQueenSide));
    assert_eq!(board.en_passant_target(), None);
    assert_eq!(board.fifty_moves(), 0);
    assert_eq!(board.ply(), 0);
    assert_eq!(board.last_record(), None);
    assert_eq!(board.turn(), Color::White);
}

#[test]
fn a_new_board_counts_every_piece() {
    let board = Board::new();
    let side = chess_state::counters::PieceKindCounts {
        pawns: 8,
        knights: 2,
        bishops: 2,
        rooks: 2,
        queens: 1,
        kings: 1,
    };
    assert_eq!(board.pieces().white, side);
    assert_eq!(board.pieces().black, side);
    assert_eq!(board.pieces().both.pawns, 16);
    assert_eq!(board.pieces().both.knights, 4);
    assert_eq!(board.pieces().both.bishops, 4);
    assert_eq!(board.pieces().both.rooks, 4);
    assert_eq!(board.pieces().both.queens, 2);
    assert_eq!(board.pieces().both.kings, 2);
    assert_eq!(board.big_pieces().white, 8);
    assert_eq!(board.big_pieces().black, 8);
    assert_eq!(board.big_pieces().both, 16);
    assert_eq!(board.major_pieces().white, 3);
    assert_eq!(board.major_pieces().black, 3);
    assert_eq!(board.major_pieces().both, 6);
    assert_eq!(board.minor_pieces().white, 4);
    assert_eq!(board.minor_pieces().black, 4);
    assert_eq!(board.minor_pieces().both, 8);
    assert_eq!(board.pawns().white.0, 0x0000_0000_0000_FF00);
    assert_eq!(board.pawns().black.0, 0x00FF_0000_0000_0000);
    assert_eq!(board.pawns().both.0, 0x00FF_0000_0000_FF00);
}

#[test]
fn a_new_board_has_the_key_of_its_position() {
    let board = Board::new();
    assert_eq!(board.position_key(), ZobristKey(0xea87_f1fa_5c98_5a51));
    assert_eq!(board.recompute_key(), board.position_key());
    assert_eq!(Board::new().position_key(), board.position_key());
}

#[test]
fn a_new_board_agrees_with_a_fresh_scan() {
    let board = Board::new();
    assert_eq!(board.recompute_counters(), *board.counters());
    assert!(board.is_sound());
}

#[test]
fn the_kings_stand_where_the_cache_says() {
    let board = Board::new();
    for color in [Color::White, Color::Black] {
        let pos = board.king_square(color);
        assert_eq!(
            board.square_at(pos),
            Square::Occupied(Piece {
                kind: PieceKind::King,
                color
            })
        );
    }
    assert_eq!(
        board.king_square(Color::White),
        Position::new(File::E, Rank::One)
    );
    assert_eq!(
        board.king_square(Color::Black),
        Position::new(File::E, Rank::Eight)
    );
}

#[test]
fn the_whole_border_holds_sentinels() {
    let board = Board::new();
    let mut sentinels = 0;
    for index in 0..120usize {
        let row = index / 10;
        let column = index % 10;
        let inside = (2..10).contains(&row) && (1..9).contains(&column);
        let off = matches!(board.squares()[index], Square::OffBoard);
        assert_eq!(off, !inside, "cell {}", index);
        if off {
            sentinels += 1;
        }
    }
    assert_eq!(sentinels, 56);
}

#[test]
fn back_ranks_run_from_rook_to_rook() {
    let files = [
        File::A,
        File::B,
        File::C,
        File::D,
        File::E,
        File::F,
        File::G,
        File::H,
    ];
    let kinds = [
        PieceKind::Rook,
        PieceKind::Knight,
        PieceKind::Bishop,
        PieceKind::Queen,
        PieceKind::King,
        PieceKind::Bishop,
        PieceKind::Knight,
        PieceKind::Rook,
    ];
    let board = Board::new();
    for (file, kind) in files.iter().zip(kinds.iter()) {
        assert_eq!(back_rank(*file), *kind);
        assert_eq!(
            board.square_at(Position::new(*file, Rank::One)),
            Square::Occupied(Piece {
                kind: *kind,
                color: Color::White
            })
        );
        assert_eq!(
            board.square_at(Position::new(*file, Rank::Eight)),
            Square::Occupied(Piece {
                kind: *kind,
                color: Color::Black
            })
        );
    }
}
