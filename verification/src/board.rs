//! The position itself: the board with its caches and its history, and
//! the two operations that change it, applying a move and undoing the
//! latest one.

use crate::castling::{
    castling_rights_after, has_right, home_rank_of, CastlingRight, ALL_CASTLING_RIGHTS,
};
use crate::coord::{lemma_cell_is_playable, File, Position, Rank};
use crate::counters::{
    aggregate_of, lemma_aggregate_lift, lemma_aggregate_place, Aggregate, Bitboard, ColoredData,
    ColoredPair, PieceKindCounts,
};
use crate::error::PositionError;
use crate::grid::{Grid, Square};
use crate::history::{History, Undo};
use crate::laws::{
    lemma_after_stepwise, lemma_before_stepwise, lemma_make_wf, lemma_move_cells, lemma_unmake_wf,
};
use crate::model::{back_rank_kind, start_cells, BoardView, Step};
use crate::piece::{Color, Piece, PieceKind};
use crate::start::{lemma_start_position, start_cells_upto, start_counters};
use crate::tally::{lemma_tally_bounds, Class};
use crate::transition::{SpecialMove, Transition};
use crate::zobrist::{
    compute_key, en_passant_code_of, lemma_key_advance, lemma_key_toggle, piece_code_at,
    position_key, rights_code_of, side_code, ZobristKey,
};
use vstd::prelude::*;

verus! {

/// A chess position. Its board and caches are read through the getters
/// and changed only by `apply` and `undo`.
#[derive(Debug)]
pub struct Board {
    squares: Grid,
    turn: Color,
    en_passant_target: Option<Position>,
    counters: Aggregate,
    kings: ColoredPair<Position>,
    position_key: ZobristKey,
    castling_rights: u8,
    fifty_moves: u8,
    history: History,
    ply: u32,
}

impl View for Board {
    type V = BoardView;

    closed spec fn view(&self) -> BoardView {
        BoardView {
            grid: self.squares@,
            turn: self.turn,
            en_passant_target: self.en_passant_target,
            counters: self.counters,
            kings: self.kings,
            position_key: self.position_key,
            castling_rights: self.castling_rights,
            fifty_moves: self.fifty_moves,
            history: self.history@,
            ply: self.ply,
        }
    }
}

impl Clone for Board {
    /// A second position in the same state, with a history of its own.
    fn clone(&self) -> (copy: Board)
        ensures
            copy@ == self@,
    {
        Board {
            squares: self.squares.clone(),
            turn: self.turn,
            en_passant_target: self.en_passant_target,
            counters: self.counters,
            kings: self.kings,
            position_key: self.position_key,
            castling_rights: self.castling_rights,
            fifty_moves: self.fifty_moves,
            history: self.history.clone(),
            ply: self.ply,
        }
    }
}

/// Whether the square content `s` is the piece `piece`.
fn holds(s: Square, piece: Piece) -> (b: bool)
    ensures
        b == (s == Square::Occupied(piece)),
{
    match s {
        Square::Occupied(found) => found == piece,
        _ => false,
    }
}

/// Whether the square content `s` is no piece and no sentinel.
fn is_vacant(s: Square) -> (b: bool)
    ensures
        b == (s is Empty),
{
    match s {
        Square::Empty => true,
        _ => false,
    }
}

/// The kind of piece that starts on `file` of a side's home rank.
pub fn back_rank(file: File) -> (kind: PieceKind)
    ensures
        kind == back_rank_kind(file),
{
    match file {
        File::A | File::H => PieceKind::Rook,
        File::B | File::G => PieceKind::Knight,
        File::C | File::F => PieceKind::Bishop,
        File::D => PieceKind::Queen,
        File::E => PieceKind::King,
    }
}

impl Board {
    /// The position is well formed: see `BoardView::wf`.
    pub open spec fn wf(&self) -> bool {
        self@.wf()
    }

    /// The position in which a game starts: the pieces on their starting
    /// squares, White to move, every castling right, no en-passant target,
    /// both counts at zero and no history; the counters and the key are
    /// those of that board.
    pub fn new() -> (board: Board)
        ensures
            board@ == BoardView::start(),
            board@.counters == start_counters(),
            board.wf(),
    {
        let mut squares = Grid::new();
        let mut f: u8 = 0;
        assert(squares@ =~= start_cells_upto(0));
        while f < 8
            invariant
                f <= 8,
                squares@ == start_cells_upto(f as int),
            decreases 8 - f,
        {
            if let Some(file) = File::from_index(f) {
                let kind = back_rank(file);
                squares.set(Position::new(file, Rank::One), Some(Piece { kind, color: Color::White }));
                squares.set(
                    Position::new(file, Rank::Two),
                    Some(Piece { kind: PieceKind::Pawn, color: Color::White }),
                );
                squares.set(
                    Position::new(file, Rank::Seven),
                    Some(Piece { kind: PieceKind::Pawn, color: Color::Black }),
                );
                squares.set(
                    Position::new(file, Rank::Eight),
                    Some(Piece { kind, color: Color::Black }),
                );
            }
            f = f + 1;
            assert(squares@ =~= start_cells_upto(f as int));
        }
        proof {
            assert(squares@ =~= start_cells());
            lemma_start_position();
        }
        let counters = Aggregate::scan(&squares);
        let position_key = compute_key(&squares, Color::White, ALL_CASTLING_RIGHTS, None);
        Board {
            squares,
            turn: Color::White,
            en_passant_target: None,
            counters,
            kings: ColoredPair {
                white: Position::new(File::E, Rank::One),
                black: Position::new(File::E, Rank::Eight),
            },
            position_key,
            castling_rights: ALL_CASTLING_RIGHTS,
            fifty_moves: 0,
            history: History::new(),
            ply: 0,
        }
    }

    /// All 120 cells of the padded board, border included.
    pub fn squares(&self) -> (cells: &[Square; 120])
        ensures
            cells@ == self@.grid,
    {
        self.squares.cells()
    }

    /// What the square `pos` holds.
    pub fn square_at(&self, pos: Position) -> (s: Square)
        ensures
            s == self@.grid[pos.cell()],
            self.wf() ==> !(s is OffBoard),
    {
        self.squares.get(pos)
    }

    /// The side to move.
    pub fn turn(&self) -> (turn: Color)
        ensures
            turn == self@.turn,
    {
        self.turn
    }

    /// The square on which a pawn can be taken en passant, if there is one.
    pub fn en_passant_target(&self) -> (target: Option<Position>)
        ensures
            target == self@.en_passant_target,
    {
        self.en_passant_target
    }

    /// The cached aggregate counters.
    pub fn counters(&self) -> (counters: &Aggregate)
        ensures
            *counters == self@.counters,
            self.wf() ==> *counters == aggregate_of(self@.grid),
    {
        &self.counters
    }

    /// The squares on which pawns stand.
    pub fn pawns(&self) -> (pawns: &ColoredData<Bitboard>)
        ensures
            *pawns == self@.counters.pawns,
    {
        &self.counters.pawns
    }

    /// The number of pieces of each kind.
    pub fn pieces(&self) -> (pieces: &ColoredData<PieceKindCounts>)
        ensures
            *pieces == self@.counters.pieces,
    {
        &self.counters.pieces
    }

    /// The number of pieces that are not pawns.
    pub fn big_pieces(&self) -> (count: &ColoredData<u8>)
        ensures
            *count == self@.counters.big_pieces,
    {
        &self.counters.big_pieces
    }

    /// The number of rooks and queens.
    pub fn major_pieces(&self) -> (count: &ColoredData<u8>)
        ensures
            *count == self@.counters.major_pieces,
    {
        &self.counters.major_pieces
    }

    /// The number of knights and bishops.
    pub fn minor_pieces(&self) -> (count: &ColoredData<u8>)
        ensures
            *count == self@.counters.minor_pieces,
    {
        &self.counters.minor_pieces
    }

    /// The cached squares of the two kings.
    pub fn kings(&self) -> (kings: &ColoredPair<Position>)
        ensures
            *kings == self@.kings,
    {
        &self.kings
    }

    /// The square of the king of `color`.
    pub fn king_square(&self, color: Color) -> (pos: Position)
        ensures
            pos == self@.kings.of(color),
            self.wf() ==> self@.grid[pos.cell()] == Square::Occupied(
                Piece { kind: PieceKind::King, color },
            ),
    {
        proof {
            if self.wf() {
                assert(self@.king_tracked(color));
            }
        }
        self.kings.get(color)
    }

    /// The position key.
    pub fn position_key(&self) -> (key: ZobristKey)
        ensures
            key == self@.position_key,
            self.wf() ==> key.0 == position_key(
                self@.grid,
                self@.turn,
                self@.castling_rights,
                self@.en_passant_target,
            ),
    {
        self.position_key
    }

    /// The castling rights, one flag for each.
    pub fn castling_rights(&self) -> (rights: u8)
        ensures
            rights == self@.castling_rights,
            self.wf() ==> rights <= ALL_CASTLING_RIGHTS,
    {
        self.castling_rights
    }

    /// Whether `right` still stands.
    pub fn has_castling_right(&self, right: CastlingRight) -> (b: bool)
        ensures
            b == has_right(self@.castling_rights, right),
    {
        self.castling_rights & right.mask() != 0
    }

    /// Half-moves since a pawn last moved or a piece was last taken.
    pub fn fifty_moves(&self) -> (count: u8)
        ensures
            count == self@.fifty_moves,
    {
        self.fifty_moves
    }

    /// The number of moves applied and not undone.
    pub fn ply(&self) -> (ply: u32)
        ensures
            ply == self@.ply,
            self.wf() ==> ply == self@.history.len(),
    {
        self.ply
    }

    /// The record of the latest move, if a move has been applied and not
    /// undone.
    pub fn last_record(&self) -> (record: Option<Undo>)
        ensures
            record == (if self@.history.len() > 0 {
                Some(self@.history.last())
            } else {
                None
            }),
    {
        self.history.last()
    }

    /// The counters that a fresh scan of the board yields. In a
    /// well-formed position they are the cached ones.
    pub fn recompute_counters(&self) -> (counters: Aggregate)
        ensures
            counters == aggregate_of(self@.grid),
            self.wf() ==> counters == self@.counters,
    {
        Aggregate::scan(&self.squares)
    }

    /// The key that a fresh scan of the board yields, with the side to
    /// move, the rights and the target. In a well-formed position it is the
    /// cached one.
    pub fn recompute_key(&self) -> (key: ZobristKey)
        ensures
            key == ZobristKey(
                position_key(
                    self@.grid,
                    self@.turn,
                    self@.castling_rights,
                    self@.en_passant_target,
                ),
            ),
            self.wf() ==> key == self@.position_key,
    {
        compute_key(&self.squares, self.turn, self.castling_rights, self.en_passant_target)
    }

    /// Whether the position is in order by itself, from a fresh look at all
    /// of it: the border holds sentinels and the squares do not, the cached
    /// counters and the cached key are what a scan of the board yields, each
    /// side has one king and it stands on its cached square, no flag
    /// beyond the four castling rights is set, and the ply count is the
    /// number of records. In a well-formed position all of this holds.
    pub fn is_sound(&self) -> (b: bool)
        ensures
            b == self@.sound(),
            self.wf() ==> b,
    {
        let counters = self.recompute_counters();
        let key = self.recompute_key();
        let white_king = Piece { kind: PieceKind::King, color: Color::White };
        let black_king = Piece { kind: PieceKind::King, color: Color::Black };
        proof {
            let king = Class::Kind(PieceKind::King);
            lemma_tally_bounds(self@.grid, Some(Color::White), king, 64);
            lemma_tally_bounds(self@.grid, Some(Color::Black), king, 64);
        }
        self.squares.is_framed() && counters.same(&self.counters) && key == self.position_key
            && holds(self.squares.get(self.kings.white), white_king) && counters.pieces.white.kings
            == 1 && holds(self.squares.get(self.kings.black), black_king)
            && counters.pieces.black.kings == 1 && self.castling_rights <= ALL_CASTLING_RIGHTS
            && self.ply as usize == self.history.len()
    }

    /// Puts `piece` on the square `pos`, which holds none, and takes it
    /// into the counters, the king cache and the key in the same step.
    fn place(&mut self, pos: Position, piece: Piece)
        requires
            old(self)@.caches_agree(),
            old(self)@.grid[pos.cell()] is Empty,
        ensures
            final(self)@ == old(self)@.with_placed(pos, piece),
            final(self)@.caches_agree(),
    {
        proof {
            lemma_cell_is_playable(pos);
            lemma_aggregate_place(self@.grid, piece, pos);
            lemma_key_toggle(
                self@.grid,
                self@.turn,
                self@.castling_rights,
                self@.en_passant_target,
                pos,
                piece,
            );
        }
        self.squares.set(pos, Some(piece));
        self.counters.add_piece(piece, pos);
        self.position_key = ZobristKey(self.position_key.0 ^ piece_code_at(piece, pos));
        match piece.kind {
            PieceKind::King => {
                match piece.color {
                    Color::White => {
                        self.kings.white = pos;
                    },
                    Color::Black => {
                        self.kings.black = pos;
                    },
                }
            },
            _ => {},
        }
    }

    /// Takes the piece off the square `pos`, which holds one, and out of
    /// the counters and the key in the same step.
    fn lift(&mut self, pos: Position) -> (piece: Piece)
        requires
            old(self)@.caches_agree(),
            old(self)@.grid[pos.cell()] is Occupied,
        ensures
            old(self)@.grid[pos.cell()] == Square::Occupied(piece),
            final(self)@ == old(self)@.with_lifted(pos),
            final(self)@.caches_agree(),
    {
        let found = self.squares.get(pos);
        match found {
            Square::Occupied(piece) => {
                proof {
                    lemma_cell_is_playable(pos);
                    lemma_aggregate_lift(self@.grid, piece, pos);
                    lemma_key_toggle(
                        self@.grid,
                        self@.turn,
                        self@.castling_rights,
                        self@.en_passant_target,
                        pos,
                        piece,
                    );
                }
                self.squares.set(pos, None);
                self.counters.remove_piece(piece, pos);
                self.position_key = ZobristKey(self.position_key.0 ^ piece_code_at(piece, pos));
                piece
            },
            _ => vstd::pervasive::unreached(),
        }
    }

    /// Whether the move `t` describes what stands on the board, with the
    /// side to move as the mover.
    fn fits(&self, t: &Transition) -> (b: bool)
        ensures
            b == t.fits(self@.grid, self@.turn),
    {
        let mover = self.turn;
        let other = mover.opposite();
        if !holds(self.squares.get(t.from), Piece { kind: t.kind, color: mover }) {
            return false;
        }
        let target = self.squares.get(t.to);
        match t.special {
            None => {
                let capture_fits = match t.captured {
                    Some(piece) => holds(target, piece) && piece.color == other && piece.kind
                        != PieceKind::King,
                    None => is_vacant(target),
                };
                let promotion_fits = match t.promotion {
                    Some(kind) => t.kind == PieceKind::Pawn && kind != PieceKind::Pawn && kind
                        != PieceKind::King,
                    None => true,
                };
                capture_fits && promotion_fits
            },
            Some(SpecialMove::EnPassant) => {
                let pawn = Piece { kind: PieceKind::Pawn, color: other };
                let names_pawn = match t.captured {
                    Some(piece) => piece == pawn,
                    None => false,
                };
                t.kind == PieceKind::Pawn && t.promotion.is_none() && names_pawn && is_vacant(target)
                    && holds(self.squares.get(t.captured_on()), pawn)
            },
            Some(SpecialMove::Castling) => {
                let home = home_rank_of(mover);
                let rook = Piece { kind: PieceKind::Rook, color: mover };
                t.kind == PieceKind::King && t.captured.is_none() && t.promotion.is_none()
                    && t.from.file == File::E && t.from.rank == home && t.to.rank == home && (
                t.to.file == File::G || t.to.file == File::C) && is_vacant(target) && is_vacant(
                    self.squares.get(t.rook_target()),
                ) && holds(self.squares.get(t.rook_source()), rook)
            },
        }
    }

    /// Why the position refuses the move `t`, if it does. A move that is
    /// not refused can be applied.
    pub fn check(&self, t: &Transition) -> (r: Option<PositionError>)
        ensures
            r == self@.refusal(*t),
    {
        if !self.fits(t) {
            Some(PositionError::Mismatch)
        } else if self.ply == u32::MAX || (!t.restarts_clock() && self.fifty_moves == u8::MAX) {
            Some(PositionError::LimitReached)
        } else {
            None
        }
    }

    /// Applies the move `t`: keeps a record of what the move cannot bring
    /// back, moves the pieces with every cache following, wears the
    /// castling rights, sets the en-passant target, counts the move and
    /// passes the turn. Whether the move is legal chess is not asked; a
    /// move that does not describe the board, or that would overflow a
    /// count, is refused and leaves the position as it was.
    pub fn apply(&mut self, t: Transition) -> (r: Result<(), PositionError>)
        requires
            old(self).wf(),
        ensures
            final(self).wf(),
            match r {
                Ok(_) => old(self)@.accepts(t) && final(self)@ == old(self)@.make(t),
                Err(e) => old(self)@.refusal(t) == Some(e) && final(self)@ == old(self)@,
            },
            final(self)@ == old(self)@.step(Step::Apply(t)),
    {
        if let Some(e) = self.check(&t) {
            return Err(e);
        }
        let mover = self.turn;
        let ghost before = self@;
        proof {
            lemma_move_cells(t);
            lemma_after_stepwise(before.grid, t, mover);
        }
        self.history.push(
            Undo {
                move_: t,
                castling_rights: self.castling_rights,
                en_passant_target: self.en_passant_target,
                fifty_move_counter: self.fifty_moves,
                position_key: self.position_key,
            },
        );
        if t.captured.is_some() {
            self.lift(t.captured_on());
        }
        self.lift(t.from);
        self.place(t.to, Piece { kind: t.landing_kind(), color: mover });
        if t.castles() {
            let rook = self.lift(t.rook_source());
            self.place(t.rook_target(), rook);
        }
        let rights = castling_rights_after(self.castling_rights, t.from, t.to);
        let target = t.en_passant_target_after();
        proof {
            lemma_key_advance(
                self@.grid,
                mover,
                self@.castling_rights,
                self@.en_passant_target,
                rights,
                target,
            );
        }
        self.position_key = ZobristKey(
            self.position_key.0 ^ side_code() ^ rights_code_of(self.castling_rights)
                ^ rights_code_of(rights) ^ en_passant_code_of(self.en_passant_target)
                ^ en_passant_code_of(target),
        );
        self.castling_rights = rights;
        self.en_passant_target = target;
        self.fifty_moves = if t.restarts_clock() {
            0
        } else {
            self.fifty_moves + 1
        };
        self.ply = self.ply + 1;
        self.turn = mover.opposite();
        proof {
            assert(self@.grid == crate::laws::cells_after_stepwise(before.grid, t, mover));
            assert(self@ =~= before.make(t));
            lemma_make_wf(before, t);
        }
        Ok(())
    }

    /// Undoes the latest move: takes its record off the history, moves the
    /// pieces back with every cache following, and restores the rights, the
    /// target, the fifty-move count and the key from the record, and the
    /// ply count and the turn. With no move to undo this fails with
    /// `EmptyHistory` and leaves the position as it was.
    pub fn undo(&mut self) -> (r: Result<(), PositionError>)
        requires
            old(self).wf(),
        ensures
            final(self).wf(),
            match r {
                Ok(_) => old(self)@.history.len() > 0 && final(self)@ == old(self)@.unmake(),
                Err(e) => e == PositionError::EmptyHistory && old(self)@.history.len() == 0
                    && final(self)@ == old(self)@,
            },
            final(self)@ == old(self)@.step(Step::Undo),
    {
        let ghost after = self@;
        let record = match self.history.pop() {
            Ok(record) => record,
            Err(e) => {
                return Err(e);
            },
        };
        let t = record.move_;
        let mover = self.turn.opposite();
        proof {
            lemma_unmake_wf(after);
            lemma_move_cells(t);
            let prior = after.unmake();
            lemma_after_stepwise(prior.grid, t, mover);
            lemma_before_stepwise(prior.grid, t, mover);
        }
        if t.castles() {
            let rook = self.lift(t.rook_target());
            self.place(t.rook_source(), rook);
        }
        self.lift(t.to);
        self.place(t.from, Piece { kind: t.kind, color: mover });
        if let Some(taken) = t.captured {
            self.place(t.captured_on(), taken);
        }
        self.castling_rights = record.castling_rights;
        self.en_passant_target = record.en_passant_target;
        self.fifty_moves = record.fifty_move_counter;
        self.position_key = record.position_key;
        self.ply = self.ply - 1;
        self.turn = mover;
        proof {
            assert(self@.grid == crate::laws::cells_before_stepwise(after.grid, t, mover));
            assert(self@ =~= after.unmake());
        }
        Ok(())
    }
}

} // verus!
