//! Pieces and the two sides.

use crate::text::{embeds, paint_glyph};
use vstd::prelude::*;

verus! {

/// What a piece is, apart from its side.
#[derive(Copy, Clone, Debug, PartialEq, Eq, Structural)]
pub enum PieceKind {
    Pawn,
    Knight,
    Bishop,
    Rook,
    Queen,
    King,
}

/// One of the two sides.
#[derive(Copy, Clone, Debug, PartialEq, Eq, Structural)]
pub enum Color {
    White,
    Black,
}

impl Color {
    /// The other side.
    pub open spec fn other(self) -> Color {
        match self {
            Color::White => Color::Black,
            Color::Black => Color::White,
        }
    }

    /// 0 for White, 1 for Black.
    pub open spec fn ord(self) -> int {
        match self {
            Color::White => 0,
            Color::Black => 1,
        }
    }

    /// The colour in which this side's pieces are drawn, as red, green and
    /// blue: full white for White, black for Black.
    pub open spec fn tint(self) -> (u8, u8, u8) {
        match self {
            Color::White => (255u8, 255u8, 255u8),
            Color::Black => (0u8, 0u8, 0u8),
        }
    }

    /// The other side.
    pub fn opposite(self) -> (c: Color)
        ensures
            c == self.other(),
    {
        match self {
            Color::White => Color::Black,
            Color::Black => Color::White,
        }
    }

    /// 0 for White, 1 for Black.
    pub fn index(self) -> (i: u8)
        ensures
            i == self.ord(),
    {
        match self {
            Color::White => 0,
            Color::Black => 1,
        }
    }

    /// The colour in which this side's pieces are drawn.
    pub fn foreground(self) -> (rgb: (u8, u8, u8))
        ensures
            rgb == self.tint(),
    {
        match self {
            Color::White => (255, 255, 255),
            Color::Black => (0, 0, 0),
        }
    }
}

impl PieceKind {
    /// Number of the kind, from 0 for a pawn to 5 for a king.
    pub open spec fn ord(self) -> int {
        match self {
            PieceKind::Pawn => 0,
            PieceKind::Knight => 1,
            PieceKind::Bishop => 2,
            PieceKind::Rook => 3,
            PieceKind::Queen => 4,
            PieceKind::King => 5,
        }
    }

    /// The chess symbol of the kind: the filled figure, whatever the side.
    pub open spec fn glyph(self) -> char {
        match self {
            PieceKind::Pawn => '\u{265F}',
            PieceKind::Knight => '\u{265E}',
            PieceKind::Bishop => '\u{265D}',
            PieceKind::Rook => '\u{265C}',
            PieceKind::Queen => '\u{265B}',
            PieceKind::King => '\u{265A}',
        }
    }

    /// Number of the kind, from 0 for a pawn to 5 for a king.
    pub fn index(self) -> (i: u8)
        ensures
            i == self.ord(),
    {
        match self {
            PieceKind::Pawn => 0,
            PieceKind::Knight => 1,
            PieceKind::Bishop => 2,
            PieceKind::Rook => 3,
            PieceKind::Queen => 4,
            PieceKind::King => 5,
        }
    }

    /// The chess symbol of the kind as a one-character string. Both sides
    /// use the same filled figure; the side only chooses its colour.
    pub fn to_unicode(&self, _color: Color) -> (s: &'static str)
        ensures
            s@ == seq![self.glyph()],
    {
        proof {
            reveal_strlit("\u{265F}");
            reveal_strlit("\u{265E}");
            reveal_strlit("\u{265D}");
            reveal_strlit("\u{265C}");
            reveal_strlit("\u{265B}");
            reveal_strlit("\u{265A}");
        }
        let s = match self {
            PieceKind::Pawn => "\u{265F}",
            PieceKind::Knight => "\u{265E}",
            PieceKind::Bishop => "\u{265D}",
            PieceKind::Rook => "\u{265C}",
            PieceKind::Queen => "\u{265B}",
            PieceKind::King => "\u{265A}",
        };
        assert(s@ =~= seq![self.glyph()]);
        s
    }
}

/// A piece: its kind and its side. A piece is never changed in place, only
/// replaced.
#[derive(Copy, Clone, Debug, PartialEq, Eq, Structural)]
pub struct Piece {
    pub kind: PieceKind,
    pub color: Color,
}

impl Piece {
    /// The piece's symbol, styled for a terminal as bold text in its side's
    /// colour. Which escape sequences the styling adds, if any, depends on
    /// the terminal and the environment; the symbol itself is in the text
    /// in any case.
    pub fn to_string(&self) -> (s: String)
        ensures
            embeds(s@, seq![self.kind.glyph()]),
    {
        let glyph = self.kind.to_unicode(self.color);
        let (r, g, b) = self.color.foreground();
        paint_glyph(glyph, r, g, b)
    }
}

} // verus!
