//! The description of one move, as move generation hands it over to be
//! applied and later undone.

use crate::coord::{File, Position, Rank};
use crate::piece::{Color, Piece, PieceKind};
use vstd::prelude::*;

verus! {

/// What sets a move apart from moving one piece to an empty or an enemy
/// square.
#[derive(Copy, Clone, Debug, PartialEq, Eq, Structural)]
pub enum SpecialMove {
    /// The king moves two files along its home rank and the rook of that
    /// side comes to stand beside it.
    Castling,
    /// A pawn takes a pawn that has just passed it: the taken pawn stands
    /// beside the taker, not on the square the taker moves to.
    EnPassant,
}

/// One move: which piece goes from where to where, what it takes, what it
/// becomes, and whether it is one of the special moves.
#[derive(Copy, Clone, Debug, PartialEq, Eq)]
pub struct Transition {
    pub from: Position,
    pub to: Position,
    /// The kind of the piece that moves.
    pub kind: PieceKind,
    /// The piece that is taken, if any.
    pub captured: Option<Piece>,
    /// The kind that a pawn turns into, if it does.
    pub promotion: Option<PieceKind>,
    pub special: Option<SpecialMove>,
}

impl Transition {
    /// Whether the move is castling.
    pub open spec fn is_castling(self) -> bool {
        self.special == Some(SpecialMove::Castling)
    }

    /// Whether the move is an en-passant capture.
    pub open spec fn is_en_passant(self) -> bool {
        self.special == Some(SpecialMove::EnPassant)
    }

    /// The kind of the piece that stands on the destination afterwards.
    pub open spec fn landed_kind(self) -> PieceKind {
        match self.promotion {
            Some(kind) => kind,
            None => self.kind,
        }
    }

    /// The square from which the taken piece disappears: the destination,
    /// but for an en-passant capture the square beside the source, on the
    /// destination's file.
    pub open spec fn capture_square(self) -> Position {
        if self.is_en_passant() {
            Position { file: self.to.file, rank: self.from.rank }
        } else {
            self.to
        }
    }

    /// In castling, the corner from which the rook comes: on the file H
    /// where the king goes to the file G, else on the file A.
    pub open spec fn rook_from(self) -> Position {
        Position {
            file: if self.to.file == File::G {
                File::H
            } else {
                File::A
            },
            rank: self.from.rank,
        }
    }

    /// In castling, the square on which the rook lands: on the file F where
    /// the king goes to the file G, else on the file D.
    pub open spec fn rook_to(self) -> Position {
        Position {
            file: if self.to.file == File::G {
                File::F
            } else {
                File::D
            },
            rank: self.from.rank,
        }
    }

    /// Whether the move is a pawn's advance of two squares along its file.
    pub open spec fn is_double_advance(self) -> bool {
        &&& self.kind == PieceKind::Pawn
        &&& self.special is None
        &&& self.captured is None
        &&& self.from.file == self.to.file
        &&& (self.to.rank.ord() - self.from.rank.ord() == 2 || self.from.rank.ord()
            - self.to.rank.ord() == 2)
    }

    /// The square that a pawn's advance of two squares passes over.
    pub open spec fn passed_square(self) -> Position {
        Position {
            file: self.from.file,
            rank: Rank::of_ord((self.from.rank.ord() + self.to.rank.ord()) / 2),
        }
    }

    /// The en-passant target that the move leaves: the square passed over
    /// by a pawn's advance of two squares, and none after any other move.
    pub open spec fn target_after(self) -> Option<Position> {
        if self.is_double_advance() {
            Some(self.passed_square())
        } else {
            None
        }
    }

    /// Whether the move starts the fifty-move count anew: a pawn moves or a
    /// piece is taken.
    pub open spec fn resets_clock(self) -> bool {
        self.kind == PieceKind::Pawn || self.captured is Some
    }

    /// The move of a piece of `kind` from `from` to the empty square `to`.
    pub fn quiet(from: Position, to: Position, kind: PieceKind) -> (t: Transition)
        ensures
            t == (Transition { from, to, kind, captured: None, promotion: None, special: None }),
    {
        Transition { from, to, kind, captured: None, promotion: None, special: None }
    }

    /// The move of a piece of `kind` from `from` to `to`, where it takes
    /// `captured`.
    pub fn capture(from: Position, to: Position, kind: PieceKind, captured: Piece) -> (t: Transition)
        ensures
            t == (Transition {
                from,
                to,
                kind,
                captured: Some(captured),
                promotion: None,
                special: None,
            }),
    {
        Transition { from, to, kind, captured: Some(captured), promotion: None, special: None }
    }

    /// The king's move from `from` to `to` in castling.
    pub fn castling(from: Position, to: Position) -> (t: Transition)
        ensures
            t == (Transition {
                from,
                to,
                kind: PieceKind::King,
                captured: None,
                promotion: None,
                special: Some(SpecialMove::Castling),
            }),
    {
        Transition {
            from,
            to,
            kind: PieceKind::King,
            captured: None,
            promotion: None,
            special: Some(SpecialMove::Castling),
        }
    }

    /// The en-passant capture by the pawn of `mover` from `from` to `to`.
    pub fn en_passant(from: Position, to: Position, mover: Color) -> (t: Transition)
        ensures
            t == (Transition {
                from,
                to,
                kind: PieceKind::Pawn,
                captured: Some(Piece { kind: PieceKind::Pawn, color: mover.other() }),
                promotion: None,
                special: Some(SpecialMove::EnPassant),
            }),
    {
        Transition {
            from,
            to,
            kind: PieceKind::Pawn,
            captured: Some(Piece { kind: PieceKind::Pawn, color: mover.opposite() }),
            promotion: None,
            special: Some(SpecialMove::EnPassant),
        }
    }

    /// This move with the pawn turning into `kind` on arrival.
    pub fn promoting_to(self, kind: PieceKind) -> (t: Transition)
        ensures
            t == (Transition { promotion: Some(kind), ..self }),
    {
        Transition {
            from: self.from,
            to: self.to,
            kind: self.kind,
            captured: self.captured,
            promotion: Some(kind),
            special: self.special,
        }
    }

    /// The kind of the piece that stands on the destination afterwards.
    pub fn landing_kind(&self) -> (kind: PieceKind)
        ensures
            kind == self.landed_kind(),
    {
        match self.promotion {
            Some(kind) => kind,
            None => self.kind,
        }
    }

    /// Whether the move is castling.
    pub fn castles(&self) -> (b: bool)
        ensures
            b == self.is_castling(),
    {
        match self.special {
            Some(SpecialMove::Castling) => true,
            _ => false,
        }
    }

    /// Whether the move is an en-passant capture.
    pub fn takes_en_passant(&self) -> (b: bool)
        ensures
            b == self.is_en_passant(),
    {
        match self.special {
            Some(SpecialMove::EnPassant) => true,
            _ => false,
        }
    }

    /// The square from which the taken piece disappears.
    pub fn captured_on(&self) -> (pos: Position)
        ensures
            pos == self.capture_square(),
    {
        if self.takes_en_passant() {
            Position { file: self.to.file, rank: self.from.rank }
        } else {
            self.to
        }
    }

    /// In castling, the corner from which the rook comes.
    pub fn rook_source(&self) -> (pos: Position)
        ensures
            pos == self.rook_from(),
    {
        match self.to.file {
            File::G => Position { file: File::H, rank: self.from.rank },
            _ => Position { file: File::A, rank: self.from.rank },
        }
    }

    /// In castling, the square on which the rook lands.
    pub fn rook_target(&self) -> (pos: Position)
        ensures
            pos == self.rook_to(),
    {
        match self.to.file {
            File::G => Position { file: File::F, rank: self.from.rank },
            _ => Position { file: File::D, rank: self.from.rank },
        }
    }

    /// The en-passant target that the move leaves.
    pub fn en_passant_target_after(&self) -> (target: Option<Position>)
        ensures
            target == self.target_after(),
    {
        let pawn = match self.kind {
            PieceKind::Pawn => true,
            _ => false,
        };
        if !pawn || self.special.is_some() || self.captured.is_some() {
            return None;
        }
        let from: u8 = self.from.rank.index();
        let to: u8 = self.to.rank.index();
        if self.from.file.index() != self.to.file.index() {
            return None;
        }
        if !(to == from + 2 || from == to + 2) {
            return None;
        }
        match Rank::from_index((from + to) / 2) {
            Some(rank) => Some(Position { file: self.from.file, rank }),
            None => None,
        }
    }

    /// Whether the move starts the fifty-move count anew.
    pub fn restarts_clock(&self) -> (b: bool)
        ensures
            b == self.resets_clock(),
    {
        match self.kind {
            PieceKind::Pawn => true,
            _ => self.captured.is_some(),
        }
    }
}

} // verus!
