//! Castling rights: a set of four flags in the low bits of a byte, and the
//! rule by which moves wear them away.

use crate::coord::{File, Position, Rank};
use crate::piece::Color;
use vstd::prelude::*;

verus! {

/// One of the four castling rights.
#[derive(Copy, Clone, Debug, PartialEq, Eq, Structural)]
pub enum CastlingRight {
    WhiteKingSide,
    WhiteQueenSide,
    BlackKingSide,
    BlackQueenSide,
}

/// The byte in which all four rights are set.
pub const ALL_CASTLING_RIGHTS: u8 = 15;

impl CastlingRight {
    /// The flag of this right.
    pub open spec fn bit(self) -> u8 {
        match self {
            CastlingRight::WhiteKingSide => 1,
            CastlingRight::WhiteQueenSide => 2,
            CastlingRight::BlackKingSide => 4,
            CastlingRight::BlackQueenSide => 8,
        }
    }

    /// The side that holds this right.
    pub open spec fn owner(self) -> Color {
        match self {
            CastlingRight::WhiteKingSide | CastlingRight::WhiteQueenSide => Color::White,
            CastlingRight::BlackKingSide | CastlingRight::BlackQueenSide => Color::Black,
        }
    }

    /// The corner on which the rook of this right starts.
    pub open spec fn rook_home(self) -> Position {
        match self {
            CastlingRight::WhiteKingSide => Position { file: File::H, rank: Rank::One },
            CastlingRight::WhiteQueenSide => Position { file: File::A, rank: Rank::One },
            CastlingRight::BlackKingSide => Position { file: File::H, rank: Rank::Eight },
            CastlingRight::BlackQueenSide => Position { file: File::A, rank: Rank::Eight },
        }
    }

    /// Whether a move from or to `pos` ends this right: `pos` is where the
    /// right's king or rook starts.
    pub open spec fn ended_by(self, pos: Position) -> bool {
        pos == self.rook_home() || pos == king_home(self.owner())
    }

    /// The flag of this right.
    pub fn mask(self) -> (m: u8)
        ensures
            m == self.bit(),
    {
        match self {
            CastlingRight::WhiteKingSide => 1,
            CastlingRight::WhiteQueenSide => 2,
            CastlingRight::BlackKingSide => 4,
            CastlingRight::BlackQueenSide => 8,
        }
    }
}

/// The rank on which a side's king and rooks start.
pub open spec fn home_rank(color: Color) -> Rank {
    match color {
        Color::White => Rank::One,
        Color::Black => Rank::Eight,
    }
}

/// The square on which a side's king starts.
pub open spec fn king_home(color: Color) -> Position {
    Position { file: File::E, rank: home_rank(color) }
}

/// Whether `right` is among `rights`.
pub open spec fn has_right(rights: u8, right: CastlingRight) -> bool {
    rights & right.bit() != 0
}

/// The flag of `right` where a move from or to `pos` leaves the right
/// standing, and no flag where it ends the right.
pub open spec fn kept_flag(right: CastlingRight, pos: Position) -> u8 {
    if right.ended_by(pos) {
        0
    } else {
        right.bit()
    }
}

/// The rights that a move from or to `pos` leaves standing, as a mask: all
/// four, less those whose king or rook starts on `pos`.
pub open spec fn rights_kept(pos: Position) -> u8 {
    (kept_flag(CastlingRight::WhiteKingSide, pos) + kept_flag(CastlingRight::WhiteQueenSide, pos)
        + kept_flag(CastlingRight::BlackKingSide, pos) + kept_flag(
        CastlingRight::BlackQueenSide,
        pos,
    )) as u8
}

/// The rights left of `rights` after a move from `from` to `to`.
pub open spec fn rights_after(rights: u8, from: Position, to: Position) -> u8 {
    rights & rights_kept(from) & rights_kept(to)
}

/// The rank on which a side's king and rooks start.
pub fn home_rank_of(color: Color) -> (rank: Rank)
    ensures
        rank == home_rank(color),
{
    match color {
        Color::White => Rank::One,
        Color::Black => Rank::Eight,
    }
}

/// The rights that a move from or to `pos` leaves standing, as a mask.
pub fn rights_kept_by(pos: Position) -> (mask: u8)
    ensures
        mask == rights_kept(pos),
{
    match (pos.file, pos.rank) {
        (File::A, Rank::One) => 13,
        (File::E, Rank::One) => 12,
        (File::H, Rank::One) => 14,
        (File::A, Rank::Eight) => 7,
        (File::E, Rank::Eight) => 3,
        (File::H, Rank::Eight) => 11,
        _ => 15,
    }
}

/// The rights left of `rights` after a move from `from` to `to`.
pub fn castling_rights_after(rights: u8, from: Position, to: Position) -> (left: u8)
    ensures
        left == rights_after(rights, from, to),
{
    rights & rights_kept_by(from) & rights_kept_by(to)
}

/// A move never adds a right, and it leaves exactly those rights standing
/// whose king and rook squares it does not touch.
pub proof fn lemma_rights_after(rights: u8, from: Position, to: Position, right: CastlingRight)
    ensures
        rights_after(rights, from, to) <= rights,
        has_right(rights_after(rights, from, to), right) <==> has_right(rights, right)
            && !right.ended_by(from) && !right.ended_by(to),
{
    let a = rights_kept(from);
    let b = rights_kept(to);
    let bit = right.bit();
    assert(rights & a & b <= rights) by (bit_vector);
    assert(((rights & a & b) & bit != 0) <==> (rights & bit != 0 && a & bit != 0 && b & bit != 0))
        by (bit_vector)
        requires
            bit == 1 || bit == 2 || bit == 4 || bit == 8,
    ;
    lemma_kept_bits(from, right);
    lemma_kept_bits(to, right);
}

/// The mask of a square holds the flag of a right exactly when a move
/// through the square does not end the right.
proof fn lemma_kept_bits(pos: Position, right: CastlingRight)
    ensures
        rights_kept(pos) & right.bit() != 0 <==> !right.ended_by(pos),
{
    assert(13u8 & 1 != 0 && 13u8 & 2 == 0 && 13u8 & 4 != 0 && 13u8 & 8 != 0 && 12u8 & 1 == 0 && 12u8
        & 2 == 0 && 12u8 & 4 != 0 && 12u8 & 8 != 0 && 14u8 & 1 == 0 && 14u8 & 2 != 0 && 14u8 & 4
        != 0 && 14u8 & 8 != 0 && 15u8 & 1 != 0 && 15u8 & 2 != 0 && 15u8 & 4 != 0 && 15u8 & 8 != 0)
        by (bit_vector);
    assert(7u8 & 1 != 0 && 7u8 & 2 != 0 && 7u8 & 4 != 0 && 7u8 & 8 == 0 && 3u8 & 1 != 0 && 3u8 & 2
        != 0 && 3u8 & 4 == 0 && 3u8 & 8 == 0 && 11u8 & 1 != 0 && 11u8 & 2 != 0 && 11u8 & 4 == 0
        && 11u8 & 8 != 0) by (bit_vector);
}

} // verus!
