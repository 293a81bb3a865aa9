//! What a scan of the board's squares yields: how many pieces of a class a
//! side has, and on which squares its pawns stand. The cached counters of
//! a position are defined by these, and the lemmas here say how they move
//! when one square changes.

use crate::coord::{cell_of_ordinal, lemma_cell_is_injective, lemma_cell_is_playable, Position};
use crate::grid::Square;
use crate::piece::{Color, PieceKind};
use vstd::prelude::*;

verus! {

/// A class of pieces that a position counts: one kind, or one of the three
/// groups that evaluation asks for.
pub enum Class {
    /// Pieces of one kind.
    Kind(PieceKind),
    /// Everything but pawns.
    Big,
    /// Rooks and queens.
    Major,
    /// Knights and bishops.
    Minor,
}

/// Whether a piece of `kind` belongs to `class`.
pub open spec fn in_class(kind: PieceKind, class: Class) -> bool {
    match class {
        Class::Kind(k) => kind == k,
        Class::Big => kind != PieceKind::Pawn,
        Class::Major => kind == PieceKind::Rook || kind == PieceKind::Queen,
        Class::Minor => kind == PieceKind::Knight || kind == PieceKind::Bishop,
    }
}

/// Whether `color` is counted under `side`, where no side means both.
pub open spec fn on_side(color: Color, side: Option<Color>) -> bool {
    match side {
        Some(c) => c == color,
        None => true,
    }
}

/// Whether the cell content `s` is a piece of `class` counted under `side`.
pub open spec fn counted(s: Square, side: Option<Color>, class: Class) -> bool {
    match s {
        Square::Occupied(piece) => on_side(piece.color, side) && in_class(piece.kind, class),
        _ => false,
    }
}

/// 1 where `s` is counted, 0 where it is not.
pub open spec fn weight(s: Square, side: Option<Color>, class: Class) -> int {
    if counted(s, side, class) {
        1
    } else {
        0
    }
}

/// How many of the first `n` squares hold a piece of `class` counted under
/// `side`.
pub open spec fn tally(cells: Seq<Square>, side: Option<Color>, class: Class, n: int) -> int
    decreases n,
{
    if n <= 0 {
        0
    } else {
        tally(cells, side, class, n - 1) + weight(cells[cell_of_ordinal(n - 1)], side, class)
    }
}

/// The bit that stands for square number `k` in a bitboard.
pub open spec fn square_bit(k: int) -> u64 {
    1u64 << (k as u64)
}

/// The bit of square `k` where `s` is a pawn counted under `side`, else 0.
pub open spec fn pawn_bit(s: Square, side: Option<Color>, k: int) -> u64 {
    if counted(s, side, Class::Kind(PieceKind::Pawn)) {
        square_bit(k)
    } else {
        0
    }
}

/// The bitboard of the pawns counted under `side` among the first `n`
/// squares: the union of their squares' bits.
pub open spec fn pawn_bits(cells: Seq<Square>, side: Option<Color>, n: int) -> u64
    decreases n,
{
    if n <= 0 {
        0
    } else {
        pawn_bits(cells, side, n - 1) | pawn_bit(cells[cell_of_ordinal(n - 1)], side, n - 1)
    }
}

/// A tally over `n` squares lies between 0 and `n`.
pub proof fn lemma_tally_bounds(cells: Seq<Square>, side: Option<Color>, class: Class, n: int)
    requires
        0 <= n,
    ensures
        0 <= tally(cells, side, class, n) <= n,
    decreases n,
{
    if n > 0 {
        lemma_tally_bounds(cells, side, class, n - 1);
    }
}

/// A tally over the first `n` squares counts each of them that holds a
/// counted piece.
pub proof fn lemma_tally_covers(
    cells: Seq<Square>,
    side: Option<Color>,
    class: Class,
    pos: Position,
    n: int,
)
    requires
        pos.ordinal() < n,
    ensures
        tally(cells, side, class, n) >= weight(cells[pos.cell()], side, class),
    decreases n,
{
    lemma_cell_is_playable(pos);
    if n > 0 {
        lemma_tally_bounds(cells, side, class, n - 1);
        if pos.ordinal() < n - 1 {
            lemma_tally_covers(cells, side, class, pos, n - 1);
        }
    }
}

/// Changing one square moves a tally by the difference of the weights of
/// its new and its old content.
pub proof fn lemma_tally_update(
    cells: Seq<Square>,
    side: Option<Color>,
    class: Class,
    pos: Position,
    s: Square,
    n: int,
)
    requires
        cells.len() == 120,
        0 <= n <= 64,
    ensures
        tally(cells.update(pos.cell(), s), side, class, n) == tally(cells, side, class, n) + (if pos.ordinal()
            < n {
            weight(s, side, class) - weight(cells[pos.cell()], side, class)
        } else {
            0
        }),
    decreases n,
{
    lemma_cell_is_playable(pos);
    if n > 0 {
        lemma_tally_update(cells, side, class, pos, s, n - 1);
        let q = Position::at_ordinal(n - 1);
        crate::coord::lemma_ordinal_is_square(n - 1);
        lemma_cell_is_injective(pos, q);
    }
}

/// No square past the first `n` has its bit in the pawn bitboard of the
/// first `n` squares.
pub proof fn lemma_pawn_bits_above(cells: Seq<Square>, side: Option<Color>, n: int, k: int)
    requires
        0 <= n <= k < 64,
    ensures
        pawn_bits(cells, side, n) & square_bit(k) == 0,
    decreases n,
{
    let m = square_bit(k);
    if n > 0 {
        lemma_pawn_bits_above(cells, side, n - 1, k);
        let a = pawn_bits(cells, side, n - 1);
        let j = (n - 1) as u64;
        let ku = k as u64;
        assert((a | (1u64 << j)) & (1u64 << ku) == 0 && (a | 0) & (1u64 << ku) == 0) by (bit_vector)
            requires
                a & (1u64 << ku) == 0,
                j < ku,
                ku < 64,
        ;
    } else {
        let ku = k as u64;
        assert(0u64 & (1u64 << ku) == 0) by (bit_vector);
    }
}

/// Changing one square sets or clears that square's bit in a pawn bitboard,
/// as its new content is a counted pawn or not, and leaves the other bits.
pub proof fn lemma_pawn_bits_update(
    cells: Seq<Square>,
    side: Option<Color>,
    pos: Position,
    s: Square,
    n: int,
)
    requires
        cells.len() == 120,
        0 <= n <= 64,
    ensures
        pawn_bits(cells.update(pos.cell(), s), side, n) == (if pos.ordinal() < n {
            (pawn_bits(cells, side, n) & !square_bit(pos.ordinal())) | pawn_bit(
                s,
                side,
                pos.ordinal(),
            )
        } else {
            pawn_bits(cells, side, n)
        }),
    decreases n,
{
    lemma_cell_is_playable(pos);
    let k = pos.ordinal();
    let ku = k as u64;
    let m = square_bit(k);
    let fresh = pawn_bit(s, side, k);
    let after = cells.update(pos.cell(), s);
    if n > 0 {
        lemma_pawn_bits_update(cells, side, pos, s, n - 1);
        let q = Position::at_ordinal(n - 1);
        crate::coord::lemma_ordinal_is_square(n - 1);
        lemma_cell_is_injective(pos, q);
        let a = pawn_bits(cells, side, n - 1);
        let j = (n - 1) as u64;
        if k == n - 1 {
            lemma_pawn_bits_above(cells, side, n - 1, k);
            let stale = pawn_bit(cells[pos.cell()], side, k);
            assert(((a | stale) & !m) | fresh == a | fresh) by (bit_vector)
                requires
                    a & m == 0,
                    stale == m || stale == 0,
            ;
        } else if k < n - 1 {
            let c = pawn_bit(cells[cell_of_ordinal(n - 1)], side, n - 1);
            assert(((a & !m) | fresh) | c == ((a | c) & !m) | fresh) by (bit_vector)
                requires
                    m == 1u64 << ku,
                    c == 1u64 << j || c == 0,
                    ku < j,
                    j < 64,
            ;
        }
    }
}

/// A square's bit is in the pawn bitboard of all 64 squares exactly when
/// the square holds a counted pawn.
pub proof fn lemma_pawn_bits_membership(cells: Seq<Square>, side: Option<Color>, pos: Position, n: int)
    requires
        0 <= n <= 64,
    ensures
        (pawn_bits(cells, side, n) & square_bit(pos.ordinal()) != 0) <==> (pos.ordinal() < n
            && counted(cells[pos.cell()], side, Class::Kind(PieceKind::Pawn))),
    decreases n,
{
    lemma_cell_is_playable(pos);
    let k = pos.ordinal();
    let ku = k as u64;
    let m = square_bit(k);
    if n > 0 {
        lemma_pawn_bits_membership(cells, side, pos, n - 1);
        let a = pawn_bits(cells, side, n - 1);
        let j = (n - 1) as u64;
        let c = pawn_bit(cells[cell_of_ordinal(n - 1)], side, n - 1);
        if k == n - 1 {
            assert((a | m) & m != 0 && (a | 0) & m == a & m) by (bit_vector)
                requires
                    m == 1u64 << ku,
                    ku < 64,
            ;
        } else {
            assert((a | c) & m == a & m) by (bit_vector)
                requires
                    m == 1u64 << ku,
                    c == 1u64 << j || c == 0,
                    ku != j,
                    ku < 64,
                    j < 64,
            ;
        }
    } else {
        assert(0u64 & m == 0) by (bit_vector);
    }
}

} // verus!
