use chess_state::board::Board;
use chess_state::piece::{Color, Piece, PieceKind};
use colored::control::{set_override, unset_override};

/// `text` without its escape sequences, each of which runs from an escape
/// character to the next `m`.
fn without_escapes(text: &str) -> String {
    let mut plain = String::new();
    let mut inside = false;
    for c in text.chars() {
        if inside {
            if c == 'm' {
                inside = false;
            }
        } else if c == '\u{1b}' {
            inside = true;
        } else {
            plain.push(c);
        }
    }
    plain
}

const START: &str = "\
8  \u{265C}  \u{265E}  \u{265D}  \u{265B}  \u{265A}  \u{265D}  \u{265E}  \u{265C} 
7  \u{265F}  \u{265F}  \u{265F}  \u{265F}  \u{265F}  \u{265F}  \u{265F}  \u{265F} 
6                         
5                         
4                         
3                         
2  \u{265F}  \u{265F}  \u{265F}  \u{265F}  \u{265F}  \u{265F}  \u{265F}  \u{265F} 
1  \u{265C}  \u{265E}  \u{265D}  \u{265B}  \u{265A}  \u{265D}  \u{265E}  \u{265C} 
   a  b  c  d  e  f  g  h
";

// The switch is one for the whole process, so this file holds one test.
#[test]
fn colouring_adds_escape_sequences_and_nothing_else() {
    let king = Piece {
        kind: PieceKind::King,
        color: Color::White,
    };
    let board = Board::new();

    set_override(true);
    let styled = king.to_string();
    assert_ne!(styled, "\u{265A}");
    assert!(styled.starts_with("\u{1b}["));
    assert!(styled.ends_with("\u{1b}[0m"));
    assert_eq!(without_escapes(&styled), "\u{265A}");
    let black = Piece {
        kind: PieceKind::King,
        color: Color::Black,
    };
    assert_ne!(black.to_string(), styled);
    assert_eq!(without_escapes(&black.to_string()), "\u{265A}");

    let cells = board.painted_cells();
    assert_eq!(cells.len(), 64);
    for (k, cell) in cells.iter().enumerate() {
        assert!(cell.starts_with("\u{1b}["), "square {}", k);
        assert!(cell.ends_with("\u{1b}[0m"), "square {}", k);
        assert_eq!(without_escapes(cell).chars().count(), 3, "square {}", k);
    }
    // Neighbouring squares differ in their background.
    assert_ne!(cells[16], cells[17]);
    assert_eq!(cells[16], cells[18]);
    assert_eq!(cells[16], cells[25]);
    let coloured = board.to_string();
    assert_ne!(coloured, START);
    assert_eq!(without_escapes(&coloured), START);

    set_override(false);
    assert_eq!(king.to_string(), "\u{265A}");
    assert_eq!(board.to_string(), START);
    for cell in board.painted_cells().iter().take(16).skip(8) {
        assert_eq!(cell, " \u{265F} ");
    }

    unset_override();
}
