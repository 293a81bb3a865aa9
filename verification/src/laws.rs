//! What holds of applying and undoing moves, stated over the model of a
//! position.

use crate::castling::{lemma_rights_after, CastlingRight};
use crate::coord::{is_playable, lemma_cell_is_injective, lemma_cell_is_playable, Position};
use crate::counters::aggregate_of;
use crate::grid::{grid_wf, Square};
use crate::model::{cells_after, cells_before, BoardView, Step};
use crate::piece::{Color, Piece, PieceKind};
use crate::tally::{
    lemma_pawn_bits_membership, lemma_tally_bounds, lemma_tally_covers, lemma_tally_update, on_side,
    square_bit, tally, Class,
};
use crate::transition::Transition;
use crate::zobrist::position_key;
use vstd::prelude::*;

verus! {

/// The board after a move, built one square at a time: the taken piece
/// leaves, the mover leaves its source and lands, and in castling the rook
/// follows.
pub open spec fn cells_after_stepwise(cells: Seq<Square>, t: Transition, mover: Color) -> Seq<
    Square,
> {
    let c1 = if t.captured is Some {
        cells.update(t.capture_square().cell(), Square::Empty)
    } else {
        cells
    };
    let c2 = c1.update(t.from.cell(), Square::Empty);
    let c3 = c2.update(t.to.cell(), Square::Occupied(Piece { kind: t.landed_kind(), color: mover }));
    if t.is_castling() {
        c3.update(t.rook_from().cell(), Square::Empty).update(
            t.rook_to().cell(),
            Square::Occupied(Piece { kind: PieceKind::Rook, color: mover }),
        )
    } else {
        c3
    }
}

/// The board before a move, built one square at a time: in castling the
/// rook goes back, the mover leaves its destination and returns to its
/// source, and the taken piece reappears.
pub open spec fn cells_before_stepwise(cells: Seq<Square>, t: Transition, mover: Color) -> Seq<
    Square,
> {
    let c1 = if t.is_castling() {
        cells.update(t.rook_to().cell(), Square::Empty).update(
            t.rook_from().cell(),
            Square::Occupied(Piece { kind: PieceKind::Rook, color: mover }),
        )
    } else {
        cells
    };
    let c2 = c1.update(t.to.cell(), Square::Empty);
    let c3 = c2.update(t.from.cell(), Square::Occupied(Piece { kind: t.kind, color: mover }));
    if t.captured is Some {
        c3.update(t.capture_square().cell(), Square::Occupied(t.captured->0))
    } else {
        c3
    }
}

/// The squares that a move names have their cells on the board.
pub proof fn lemma_move_cells(t: Transition)
    ensures
        is_playable(t.from.cell()),
        is_playable(t.to.cell()),
        is_playable(t.capture_square().cell()),
        is_playable(t.rook_from().cell()),
        is_playable(t.rook_to().cell()),
{
    lemma_cell_is_playable(t.from);
    lemma_cell_is_playable(t.to);
    lemma_cell_is_playable(t.capture_square());
    lemma_cell_is_playable(t.rook_from());
    lemma_cell_is_playable(t.rook_to());
}

/// For a move that fits, building the next board one square at a time
/// gives the board after the move.
pub proof fn lemma_after_stepwise(cells: Seq<Square>, t: Transition, mover: Color)
    requires
        grid_wf(cells),
        t.fits(cells, mover),
    ensures
        cells_after_stepwise(cells, t, mover) == cells_after(cells, t, mover),
        grid_wf(cells_after(cells, t, mover)),
{
    lemma_move_cells(t);
    assert(cells_after_stepwise(cells, t, mover) =~= cells_after(cells, t, mover));
}

/// For a move that fitted the board before it, building the previous board
/// one square at a time gives the board before the move.
pub proof fn lemma_before_stepwise(cells: Seq<Square>, t: Transition, mover: Color)
    requires
        grid_wf(cells),
        t.fits(cells, mover),
    ensures
        cells_before_stepwise(cells_after(cells, t, mover), t, mover) == cells,
        cells_before(cells_after(cells, t, mover), t, mover) == cells,
{
    lemma_move_cells(t);
    let after = cells_after(cells, t, mover);
    assert(cells_before(after, t, mover) =~= cells);
    assert(cells_before_stepwise(after, t, mover) =~= cells);
}

/// A side with one king has it on one square only.
pub proof fn lemma_king_is_unique(cells: Seq<Square>, color: Color, p: Position, q: Position)
    requires
        cells.len() == 120,
        tally(cells, Some(color), Class::Kind(PieceKind::King), 64) == 1,
        cells[p.cell()] == Square::Occupied(Piece { kind: PieceKind::King, color }),
        cells[q.cell()] == Square::Occupied(Piece { kind: PieceKind::King, color }),
    ensures
        p == q,
{
    lemma_cell_is_playable(p);
    lemma_cell_is_playable(q);
    if p != q {
        lemma_cell_is_injective(p, q);
        let class = Class::Kind(PieceKind::King);
        lemma_tally_update(cells, Some(color), class, p, Square::Empty, 64);
        lemma_tally_covers(cells.update(p.cell(), Square::Empty), Some(color), class, q, 64);
    }
}

/// A move that fits leaves each side with as many kings as it had.
pub proof fn lemma_kings_counted(cells: Seq<Square>, t: Transition, mover: Color, color: Color)
    requires
        grid_wf(cells),
        t.fits(cells, mover),
    ensures
        tally(cells_after(cells, t, mover), Some(color), Class::Kind(PieceKind::King), 64) == tally(
            cells,
            Some(color),
            Class::Kind(PieceKind::King),
            64,
        ),
{
    lemma_move_cells(t);
    lemma_after_stepwise(cells, t, mover);
    let class = Class::Kind(PieceKind::King);
    let side = Some(color);
    let c1 = if t.captured is Some {
        cells.update(t.capture_square().cell(), Square::Empty)
    } else {
        cells
    };
    if t.captured is Some {
        lemma_tally_update(cells, side, class, t.capture_square(), Square::Empty, 64);
    }
    let c2 = c1.update(t.from.cell(), Square::Empty);
    lemma_tally_update(c1, side, class, t.from, Square::Empty, 64);
    let landed = Square::Occupied(Piece { kind: t.landed_kind(), color: mover });
    let c3 = c2.update(t.to.cell(), landed);
    lemma_tally_update(c2, side, class, t.to, landed, 64);
    if t.is_castling() {
        let rook = Square::Occupied(Piece { kind: PieceKind::Rook, color: mover });
        let c4 = c3.update(t.rook_from().cell(), Square::Empty);
        lemma_tally_update(c3, side, class, t.rook_from(), Square::Empty, 64);
        lemma_tally_update(c4, side, class, t.rook_to(), rook, 64);
    }
}

/// Applying a move that a sound position takes leads to a sound position.
pub proof fn lemma_make_sound(v: BoardView, t: Transition)
    requires
        v.sound(),
        v.accepts(t),
    ensures
        v.make(t).sound(),
{
    lemma_move_cells(t);
    lemma_after_stepwise(v.grid, t, v.turn);
    lemma_kings_counted(v.grid, t, v.turn, Color::White);
    lemma_kings_counted(v.grid, t, v.turn, Color::Black);
    lemma_rights_after(v.castling_rights, t.from, t.to, CastlingRight::WhiteKingSide);
    lemma_cell_is_playable(v.kings.white);
    lemma_cell_is_playable(v.kings.black);
    let w = v.make(t);
    assert(w.king_tracked(Color::White));
    assert(w.king_tracked(Color::Black));
}

/// Round trip: undoing a move just applied restores the position exactly,
/// the board, every cache, the rights, the target, both counts, the key and
/// the history.
pub proof fn lemma_make_unmake(v: BoardView, t: Transition)
    requires
        v.sound(),
        v.accepts(t),
    ensures
        v.make(t).unmake() == v,
{
    lemma_move_cells(t);
    lemma_before_stepwise(v.grid, t, v.turn);
    let w = v.make(t);
    let back = w.unmake();
    assert(w.history.last() == v.record(t));
    assert(w.history.drop_last() =~= v.history);
    if t.kind == PieceKind::King {
        assert(v.king_tracked(v.turn));
        lemma_king_is_unique(v.grid, v.turn, v.kings.of(v.turn), t.from);
    }
    assert(back.kings == v.kings);
    assert(back =~= v);
}

/// Applying a move that a well-formed position takes leads to a
/// well-formed position.
pub proof fn lemma_make_wf(v: BoardView, t: Transition)
    requires
        v.wf(),
        v.accepts(t),
    ensures
        v.make(t).wf(),
{
    lemma_make_sound(v, t);
    lemma_make_unmake(v, t);
    let w = v.make(t);
    assert(w.history.last() == v.record(t));
}

/// Undoing the latest move of a well-formed position leads to the
/// well-formed position that took the move, and applying the move there
/// leads back.
pub proof fn lemma_unmake_wf(v: BoardView)
    requires
        v.wf(),
        v.history.len() > 0,
    ensures
        v.unmake().wf(),
        v.unmake().accepts(v.history.last().move_),
        v.unmake().make(v.history.last().move_) == v,
{
}

/// Whatever calls are made on a well-formed position, applies and undos in
/// any order, taken or refused, the position stays well formed.
pub proof fn lemma_run_wf(v: BoardView, steps: Seq<Step>)
    requires
        v.wf(),
    ensures
        v.run(steps).wf(),
    decreases steps.len(),
{
    if steps.len() > 0 {
        lemma_run_wf(v, steps.drop_last());
        let w = v.run(steps.drop_last());
        match steps.last() {
            Step::Apply(t) => {
                if w.accepts(t) {
                    lemma_make_wf(w, t);
                }
            },
            Step::Undo => {},
        }
    }
}

/// Before and after any calls, every cell outside the 64 squares holds the
/// sentinel, and no square does.
pub proof fn lemma_border_is_kept(v: BoardView, steps: Seq<Step>, i: int)
    requires
        v.wf(),
        0 <= i < 120,
    ensures
        v.grid.len() == 120,
        v.run(steps).grid.len() == 120,
        is_playable(i) <==> !(v.grid[i] is OffBoard),
        is_playable(i) <==> !(v.run(steps).grid[i] is OffBoard),
{
    lemma_run_wf(v, steps);
}

/// After any calls, the cached counters are what a fresh scan of the board
/// yields, the cached key is the key of the position, and each king stands
/// on its cached square.
pub proof fn lemma_caches_are_kept(v: BoardView, steps: Seq<Step>)
    requires
        v.wf(),
    ensures
        v.run(steps).counters == aggregate_of(v.run(steps).grid),
        v.run(steps).position_key.0 == position_key(
            v.run(steps).grid,
            v.run(steps).turn,
            v.run(steps).castling_rights,
            v.run(steps).en_passant_target,
        ),
        v.run(steps).kings_tracked(),
{
    lemma_run_wf(v, steps);
}

/// Moves that a well-formed position takes one after the other lead to a
/// well-formed position, with one more record and one more ply for each.
pub proof fn lemma_make_all_wf(v: BoardView, moves: Seq<Transition>)
    requires
        v.wf(),
        v.accepts_all(moves),
    ensures
        v.make_all(moves).wf(),
        v.make_all(moves).history.len() == v.history.len() + moves.len(),
    decreases moves.len(),
{
    if moves.len() > 0 {
        lemma_make_all_wf(v, moves.drop_last());
        lemma_make_wf(v.make_all(moves.drop_last()), moves.last());
    }
}

/// Applying moves and then undoing `n` of them leads to the position that
/// the moves before those `n` had made: the same board, caches, rights,
/// target, counts, key and history. With `n` the number of all the moves,
/// that is the position from which they started.
pub proof fn lemma_make_all_unmake(v: BoardView, moves: Seq<Transition>, n: nat)
    requires
        v.wf(),
        v.accepts_all(moves),
        n <= moves.len(),
    ensures
        v.make_all(moves).unmake_times(n) == v.make_all(moves.subrange(0, moves.len() - n)),
        n == moves.len() ==> v.make_all(moves).unmake_times(n) == v,
        n == moves.len() ==> v.make_all(moves).unmake_times(n).position_key == v.position_key,
    decreases n,
{
    if n == 0 {
        assert(moves.subrange(0, moves.len() as int) =~= moves);
    } else {
        let earlier = moves.drop_last();
        lemma_make_all_wf(v, earlier);
        lemma_make_unmake(v.make_all(earlier), moves.last());
        lemma_make_all_unmake(v, earlier, (n - 1) as nat);
        assert(earlier.subrange(0, earlier.len() - (n - 1)) =~= moves.subrange(
            0,
            moves.len() - n,
        ));
    }
    if n == moves.len() {
        assert(moves.subrange(0, 0) =~= Seq::<Transition>::empty());
    }
}

/// Two well-formed positions with the same board, side to move, castling
/// rights and en-passant target have the same key, whatever their
/// histories and counts.
pub proof fn lemma_same_position_same_key(v: BoardView, w: BoardView)
    requires
        v.wf(),
        w.wf(),
        v.grid == w.grid,
        v.turn == w.turn,
        v.castling_rights == w.castling_rights,
        v.en_passant_target == w.en_passant_target,
    ensures
        v.position_key == w.position_key,
        v.counters == w.counters,
        v.kings == w.kings,
{
    lemma_cell_is_playable(v.kings.white);
    lemma_cell_is_playable(v.kings.black);
    assert(v.king_tracked(Color::White) && w.king_tracked(Color::White));
    assert(v.king_tracked(Color::Black) && w.king_tracked(Color::Black));
    lemma_king_is_unique(v.grid, Color::White, v.kings.white, w.kings.white);
    lemma_king_is_unique(v.grid, Color::Black, v.kings.black, w.kings.black);
}

/// In a well-formed position a side's king stands on the cached square and
/// on no other.
pub proof fn lemma_king_cache(v: BoardView, color: Color, pos: Position)
    requires
        v.wf(),
    ensures
        v.grid[pos.cell()] == Square::Occupied(Piece { kind: PieceKind::King, color }) <==> pos
            == v.kings.of(color),
{
    assert(v.king_tracked(color));
    if v.grid[pos.cell()] == Square::Occupied(Piece { kind: PieceKind::King, color }) {
        lemma_king_is_unique(v.grid, color, v.kings.of(color), pos);
    }
}

/// In a well-formed position a square's bit is set in a side's pawn
/// bitboard exactly when a pawn of that side stands on the square, and in
/// the bitboard of both sides exactly when any pawn does.
pub proof fn lemma_pawn_bitboards(v: BoardView, side: Option<Color>, pos: Position)
    requires
        v.wf(),
    ensures
        (v.counters.pawns.of(side).0 & square_bit(pos.ordinal()) != 0) <==> (
        v.grid[pos.cell()] matches Square::Occupied(piece) && piece.kind == PieceKind::Pawn
            && on_side(piece.color, side)),
{
    lemma_pawn_bits_membership(v.grid, side, pos, 64);
    lemma_cell_is_playable(pos);
}

/// In a well-formed position each count is the number of squares that
/// hold a piece of its class and side, and no count is above 64.
pub proof fn lemma_counts(v: BoardView, side: Option<Color>, kind: PieceKind)
    requires
        v.wf(),
    ensures
        v.counters.pieces.of(side).of(kind) == tally(v.grid, side, Class::Kind(kind), 64),
        v.counters.big_pieces.of(side) == tally(v.grid, side, Class::Big, 64),
        v.counters.major_pieces.of(side) == tally(v.grid, side, Class::Major, 64),
        v.counters.minor_pieces.of(side) == tally(v.grid, side, Class::Minor, 64),
        v.counters.pieces.of(side).of(kind) <= 64,
        v.counters.big_pieces.of(side) <= 64,
{
    lemma_tally_bounds(v.grid, side, Class::Kind(kind), 64);
    lemma_tally_bounds(v.grid, side, Class::Big, 64);
    lemma_tally_bounds(v.grid, side, Class::Major, 64);
    lemma_tally_bounds(v.grid, side, Class::Minor, 64);
}

} // verus!
