use chess_state::piece::{Color, Piece, PieceKind};

#[test]
fn test_piece_display() {
    // Both white and black pieces use the same filled symbols
    // Test white pieces
    assert_eq!(
        Piece {
            kind: PieceKind::King,
            color: Color::White
        }
        .to_string(),
        "♚"
    );
    assert_eq!(
        Piece {
            kind: PieceKind::Queen,
            color: Color::White
        }
        .to_string(),
        "♛"
    );
    assert_eq!(
        Piece {
            kind: PieceKind::Rook,
            color: Color::White
        }
        .to_string(),
        "♜"
    );
    assert_eq!(
        Piece {
            kind: PieceKind::Bishop,
            color: Color::White
        }
        .to_string(),
        "♝"
    );
    assert_eq!(
        Piece {
            kind: PieceKind::Knight,
            color: Color::White
        }
        .to_string(),
        "♞"
    );
    assert_eq!(
        Piece {
            kind: PieceKind::Pawn,
            color: Color::White
        }
        .to_string(),
        "♟"
    );

    // Test black pieces
    assert_eq!(
        Piece {
            kind: PieceKind::King,
            color: Color::Black
        }
        .to_string(),
        "♚"
    );
    assert_eq!(
        Piece {
            kind: PieceKind::Queen,
            color: Color::Black
        }
        .to_string(),
        "♛"
    );
    assert_eq!(
        Piece {
            kind: PieceKind::Rook,
            color: Color::Black
        }
        .to_string(),
        "♜"
    );
    assert_eq!(
        Piece {
            kind: PieceKind::Bishop,
            color: Color::Black
        }
        .to_string(),
        "♝"
    );
    assert_eq!(
        Piece {
            kind: PieceKind::Knight,
            color: Color::Black
        }
        .to_string(),
        "♞"
    );
    assert_eq!(
        Piece {
            kind: PieceKind::Pawn,
            color: Color::Black
        }
        .to_string(),
        "♟"
    );
}

#[test]
fn symbols_do_not_depend_on_the_side() {
    let kinds = [
        (PieceKind::Pawn, "\u{265F}"),
        (PieceKind::Knight, "\u{265E}"),
        (PieceKind::Bishop, "\u{265D}"),
        (PieceKind::Rook, "\u{265C}"),
        (PieceKind::Queen, "\u{265B}"),
        (PieceKind::King, "\u{265A}"),
    ];
    for (kind, symbol) in kinds {
        assert_eq!(kind.to_unicode(Color::White), symbol);
        assert_eq!(kind.to_unicode(Color::Black), symbol);
    }
}

#[test]
fn sides_are_opposite_to_each_other() {
    assert_eq!(Color::White.opposite(), Color::Black);
    assert_eq!(Color::Black.opposite(), Color::White);
    assert_eq!(Color::White.index(), 0);
    assert_eq!(Color::Black.index(), 1);
    assert_eq!(Color::White.foreground(), (255, 255, 255));
    assert_eq!(Color::Black.foreground(), (0, 0, 0));
}

#[test]
fn kinds_are_numbered_from_pawn_to_king() {
    assert_eq!(PieceKind::Pawn.index(), 0);
    assert_eq!(PieceKind::Knight.index(), 1);
    assert_eq!(PieceKind::Bishop.index(), 2);
    assert_eq!(PieceKind::Rook.index(), 3);
    assert_eq!(PieceKind::Queen.index(), 4);
    assert_eq!(PieceKind::King.index(), 5);
}
