//! The position in which a game starts, and what a scan of it counts.

use crate::coord::{File, Position, Rank};
use crate::counters::{
    aggregate_of, aggregate_upto, lemma_aggregate_place, lemma_aggregate_scan, Aggregate, Bitboard,
    ColoredData, PieceKindCounts,
};
use crate::grid::{empty_cells, Square};
use crate::model::{back_rank_kind, start_cells, start_square, BoardView};
use crate::piece::{Color, Piece, PieceKind};
use crate::tally::{lemma_tally_bounds, tally, Class};
use vstd::prelude::*;

verus! {

/// The board on which the pieces of the first `f` files stand on their
/// starting squares and all other squares are empty.
pub open spec fn start_cells_upto(f: int) -> Seq<Square> {
    Seq::new(
        120,
        |i: int|
            if !crate::coord::is_playable(i) {
                Square::OffBoard
            } else if i % 10 - 1 < f {
                start_square(Position::at_cell(i))
            } else {
                Square::Empty
            },
    )
}

/// 1 where `b` holds, else 0.
pub open spec fn flag(b: bool) -> int {
    if b {
        1
    } else {
        0
    }
}

/// The low `f` bits of a byte, moved up by `base` bits: the squares of the
/// first `f` files on the rank whose first square has number `base`.
pub open spec fn rank_bits(base: u64, f: int) -> u64 {
    (0xFFu64 >> ((8 - f) as u64)) << base
}

/// How many pieces of each kind one side has on the first `f` files when a
/// game starts, each count taken `times` over.
pub open spec fn start_counts_upto(f: int, times: int) -> PieceKindCounts {
    PieceKindCounts {
        pawns: (times * f) as u8,
        knights: (times * (flag(f > 1) + flag(f > 6))) as u8,
        bishops: (times * (flag(f > 2) + flag(f > 5))) as u8,
        rooks: (times * (flag(f > 0) + flag(f > 7))) as u8,
        queens: (times * flag(f > 3)) as u8,
        kings: (times * flag(f > 4)) as u8,
    }
}

/// The counters of the board on which the first `f` files are set up.
pub open spec fn start_counters_upto(f: int) -> Aggregate {
    let major = flag(f > 0) + flag(f > 3) + flag(f > 7);
    let minor = flag(f > 1) + flag(f > 2) + flag(f > 5) + flag(f > 6);
    Aggregate {
        pawns: ColoredData {
            white: Bitboard(rank_bits(8, f)),
            black: Bitboard(rank_bits(48, f)),
            both: Bitboard(rank_bits(8, f) | rank_bits(48, f)),
        },
        pieces: ColoredData {
            white: start_counts_upto(f, 1),
            black: start_counts_upto(f, 1),
            both: start_counts_upto(f, 2),
        },
        big_pieces: ColoredData { white: f as u8, black: f as u8, both: (2 * f) as u8 },
        major_pieces: ColoredData { white: major as u8, black: major as u8, both: (2 * major) as u8 },
        minor_pieces: ColoredData { white: minor as u8, black: minor as u8, both: (2 * minor) as u8 },
    }
}

/// The counters of the position in which a game starts: each side has
/// eight pawns on its second rank, two knights, two bishops, two rooks, a
/// queen and a king.
pub open spec fn start_counters() -> Aggregate {
    let side = PieceKindCounts { pawns: 8, knights: 2, bishops: 2, rooks: 2, queens: 1, kings: 1 };
    Aggregate {
        pawns: ColoredData {
            white: Bitboard(0x0000_0000_0000_FF00),
            black: Bitboard(0x00FF_0000_0000_0000),
            both: Bitboard(0x00FF_0000_0000_FF00),
        },
        pieces: ColoredData {
            white: side,
            black: side,
            both: PieceKindCounts { pawns: 16, knights: 4, bishops: 4, rooks: 4, queens: 2, kings: 2 },
        },
        big_pieces: ColoredData { white: 8, black: 8, both: 16 },
        major_pieces: ColoredData { white: 3, black: 3, both: 6 },
        minor_pieces: ColoredData { white: 4, black: 4, both: 8 },
    }
}

/// A scan of a board without pieces counts nothing.
proof fn lemma_empty_counters(n: int)
    requires
        0 <= n <= 64,
    ensures
        aggregate_upto(empty_cells(), n) == Aggregate::zero(),
    decreases n,
{
    if n > 0 {
        lemma_empty_counters(n - 1);
        crate::coord::lemma_ordinal_is_square(n - 1);
        lemma_aggregate_scan(empty_cells(), n - 1);
    } else {
        lemma_aggregate_scan(empty_cells(), 0);
    }
}

/// Setting up one more file adds that file's squares to the pawn ranks.
proof fn lemma_rank_bits_step(f: int)
    requires
        0 <= f < 8,
    ensures
        rank_bits(8, f) | crate::tally::square_bit(8 + f) == rank_bits(8, f + 1),
        rank_bits(48, f) | crate::tally::square_bit(48 + f) == rank_bits(48, f + 1),
        (rank_bits(8, f) | rank_bits(48, f) | crate::tally::square_bit(8 + f))
            | crate::tally::square_bit(48 + f) == rank_bits(8, f + 1) | rank_bits(48, f + 1),
{
    let g = (8 - f) as u64;
    let h = (8 - (f + 1)) as u64;
    let lo = (8 + f) as u64;
    let hi = (48 + f) as u64;
    assert(((0xFFu64 >> g) << 8u64) | (1u64 << lo) == (0xFFu64 >> h) << 8u64 && ((0xFFu64 >> g)
        << 48u64) | (1u64 << hi) == (0xFFu64 >> h) << 48u64) by (bit_vector)
        requires
            1 <= g <= 8,
            h == g - 1,
            lo == 16 - g,
            hi == 56 - g,
    ;
    let a = rank_bits(8, f);
    let b = rank_bits(48, f);
    let x = crate::tally::square_bit(8 + f);
    let y = crate::tally::square_bit(48 + f);
    assert((a | b | x) | y == (a | x) | (b | y)) by (bit_vector);
}

/// The counters of the board on which the first `f` files are set up are
/// those that `start_counters_upto` gives.
proof fn lemma_start_counters_upto(f: int)
    requires
        0 <= f <= 8,
    ensures
        aggregate_of(start_cells_upto(f)) == start_counters_upto(f),
    decreases f,
{
    if f == 0 {
        lemma_empty_counters(64);
        assert(start_cells_upto(0) =~= empty_cells());
        assert(0xFFu64 >> 8u64 == 0 && (0u64 << 8u64) == 0 && (0u64 << 48u64) == 0 && 0u64 | 0u64
            == 0) by (bit_vector);
    } else {
        let e = f - 1;
        lemma_start_counters_upto(e);
        lemma_rank_bits_step(e);
        let file = File::of_ord(e);
        let white_piece = Piece { kind: back_rank_kind(file), color: Color::White };
        let white_pawn = Piece { kind: PieceKind::Pawn, color: Color::White };
        let black_pawn = Piece { kind: PieceKind::Pawn, color: Color::Black };
        let black_piece = Piece { kind: back_rank_kind(file), color: Color::Black };
        let on_one = Position { file, rank: Rank::One };
        let on_two = Position { file, rank: Rank::Two };
        let on_seven = Position { file, rank: Rank::Seven };
        let on_eight = Position { file, rank: Rank::Eight };
        let c0 = start_cells_upto(e);
        let c1 = c0.update(on_one.cell(), Square::Occupied(white_piece));
        let c2 = c1.update(on_two.cell(), Square::Occupied(white_pawn));
        let c3 = c2.update(on_seven.cell(), Square::Occupied(black_pawn));
        let c4 = c3.update(on_eight.cell(), Square::Occupied(black_piece));
        lemma_aggregate_place(c0, white_piece, on_one);
        lemma_aggregate_place(c1, white_pawn, on_two);
        lemma_aggregate_place(c2, black_pawn, on_seven);
        lemma_aggregate_place(c3, black_piece, on_eight);
        assert(c4 =~= start_cells_upto(f));
        let a0 = start_counters_upto(e);
        let a1 = a0.plus(white_piece, on_one);
        let a2 = a1.plus(white_pawn, on_two);
        let a3 = a2.plus(black_pawn, on_seven);
        let a4 = a3.plus(black_piece, on_eight);
        assert(a4.pawns == start_counters_upto(f).pawns);
        assert(a4.pieces == start_counters_upto(f).pieces);
        assert(a4.big_pieces == start_counters_upto(f).big_pieces);
        assert(a4.major_pieces == start_counters_upto(f).major_pieces);
        assert(a4.minor_pieces == start_counters_upto(f).minor_pieces);
    }
}

/// The position in which a game starts is well formed, and a scan of its
/// board counts what `start_counters` says.
pub proof fn lemma_start_position()
    ensures
        BoardView::start().wf(),
        BoardView::start().counters == start_counters(),
{
    lemma_start_counters_upto(8);
    assert(start_cells_upto(8) =~= start_cells());
    assert((0xFFu64 >> 0u64) << 8u64 == 0x0000_0000_0000_FF00 && (0xFFu64 >> 0u64) << 48u64
        == 0x00FF_0000_0000_0000 && 0x0000_0000_0000_FF00u64 | 0x00FF_0000_0000_0000u64
        == 0x00FF_0000_0000_FF00) by (bit_vector);
    let v = BoardView::start();
    let king = Class::Kind(PieceKind::King);
    lemma_tally_bounds(v.grid, Some(Color::White), king, 64);
    lemma_tally_bounds(v.grid, Some(Color::Black), king, 64);
    assert(v.king_tracked(Color::White));
    assert(v.king_tracked(Color::Black));
}

} // verus!
