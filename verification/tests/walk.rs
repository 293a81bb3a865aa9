use chess_state::board::Board;
use chess_state::coord::Position;
use chess_state::error::PositionError;
use chess_state::grid::Square;
use chess_state::piece::PieceKind;
use chess_state::transition::Transition;
use chess_state::zobrist::ZobristKey;

/// A small generator of numbers that always gives the same sequence.
struct Numbers(u64);

impl Numbers {
    fn next(&mut self, below: u64) -> u64 {
        self.0 = self
            .0
            .wrapping_mul(6364136223846793005)
            .wrapping_add(1442695040888963407);
        (self.0 >> 33) % below
    }
}

/// A move between two squares drawn by chance, described as the board has
/// it wherever that is possible.
fn draw(board: &Board, numbers: &mut Numbers) -> Transition {
    let from = Position::from_ordinal(numbers.next(64) as u8).expect("a square");
    let to = Position::from_ordinal(numbers.next(64) as u8).expect("a square");
    let kind = match board.square_at(from) {
        Square::Occupied(piece) => piece.kind,
        _ => PieceKind::Queen,
    };
    let t = match board.square_at(to) {
        Square::Occupied(piece) => Transition::capture(from, to, kind, piece),
        _ => Transition::quiet(from, to, kind),
    };
    if kind == PieceKind::Pawn && numbers.next(4) == 0 {
        t.promoting_to(PieceKind::Rook)
    } else {
        t
    }
}

fn assert_in_order(board: &Board) {
    assert!(board.is_sound());
    assert_eq!(board.recompute_counters(), *board.counters());
    assert_eq!(board.recompute_key(), board.position_key());
    for index in 0..120usize {
        let row = index / 10;
        let column = index % 10;
        let inside = (2..10).contains(&row) && (1..9).contains(&column);
        assert_eq!(
            matches!(board.squares()[index], Square::OffBoard),
            !inside
        );
    }
    assert_eq!(board.pieces().white.kings, 1);
    assert_eq!(board.pieces().black.kings, 1);
    assert_eq!(
        board.pawns().both.0.count_ones(),
        board.pieces().both.pawns as u32
    );
    assert_eq!(board.pawns().white.0 | board.pawns().black.0, board.pawns().both.0);
    assert_eq!(board.pawns().white.0 & board.pawns().black.0, 0);
}

#[test]
fn whatever_is_applied_and_undone_the_position_stays_in_order() {
    let mut numbers = Numbers(2024);
    let mut board = Board::new();
    let mut keys: Vec<ZobristKey> = vec![board.position_key()];
    let mut taken = 0;
    let mut refused = 0;
    let mut undone = 0;
    for _ in 0..6000 {
        if numbers.next(5) == 0 {
            let result = board.undo();
            if keys.len() > 1 {
                assert_eq!(result, Ok(()));
                keys.pop();
                undone += 1;
            } else {
                assert_eq!(result, Err(PositionError::EmptyHistory));
            }
        } else {
            let t = draw(&board, &mut numbers);
            let expected = board.check(&t);
            let key = board.position_key();
            match board.apply(t) {
                Ok(()) => {
                    assert_eq!(expected, None);
                    keys.push(board.position_key());
                    taken += 1;
                }
                Err(e) => {
                    assert_eq!(expected, Some(e));
                    assert_eq!(board.position_key(), key);
                    refused += 1;
                }
            }
        }
        assert_eq!(Some(&board.position_key()), keys.last());
        assert_eq!(board.ply() as usize, keys.len() - 1);
        assert_in_order(&board);
    }
    assert!(taken > 100, "only {} moves were taken", taken);
    assert!(refused > 100, "only {} moves were refused", refused);
    assert!(undone > 50, "only {} moves were undone", undone);
    while keys.len() > 1 {
        keys.pop();
        assert_eq!(board.undo(), Ok(()));
        assert_eq!(Some(&board.position_key()), keys.last());
    }
    assert_in_order(&board);
    assert_eq!(board.squares(), Board::new().squares());
    assert_eq!(board.position_key(), Board::new().position_key());
    assert_eq!(*board.counters(), *Board::new().counters());
    assert_eq!(board.castling_rights(), 15);
    assert_eq!(board.undo(), Err(PositionError::EmptyHistory));
}
