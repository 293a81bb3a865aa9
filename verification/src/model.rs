//! The mathematical model of a position: its state as plain values, what
//! it means for a move to fit it, and the states that applying and undoing
//! a move lead to.

use crate::castling::{home_rank, king_home, rights_after};
use crate::coord::{is_playable, File, Position, Rank};
use crate::counters::{aggregate_of, Aggregate, ColoredPair};
use crate::error::PositionError;
use crate::grid::{grid_wf, Square};
use crate::history::Undo;
use crate::piece::{Color, Piece, PieceKind};
use crate::tally::{tally, Class};
use crate::transition::{SpecialMove, Transition};
use crate::zobrist::{position_key, ZobristKey};
use vstd::prelude::*;

verus! {

/// The state of a position.
#[verifier::ext_equal]
pub struct BoardView {
    /// The 120 cells of the padded board.
    pub grid: Seq<Square>,
    /// The side to move.
    pub turn: Color,
    pub en_passant_target: Option<Position>,
    /// The cached aggregate counters.
    pub counters: Aggregate,
    /// The cached square of each side's king.
    pub kings: ColoredPair<Position>,
    /// The cached position key.
    pub position_key: ZobristKey,
    pub castling_rights: u8,
    /// Half-moves since a pawn last moved or a piece was last taken.
    pub fifty_moves: u8,
    /// One record for each move applied and not undone, the latest last.
    pub history: Seq<Undo>,
    /// The number of moves applied and not undone.
    pub ply: u32,
}

impl Transition {
    /// Whether the move describes what stands on the board `cells` with
    /// `mover` to move: the piece it names stands on its source, what it
    /// takes stands where it is taken, and the squares it fills are empty.
    /// This asks nothing of how the pieces move.
    pub open spec fn fits(self, cells: Seq<Square>, mover: Color) -> bool {
        &&& cells[self.from.cell()] == Square::Occupied(Piece { kind: self.kind, color: mover })
        &&& match self.special {
            None => {
                &&& match self.captured {
                    Some(piece) => {
                        &&& cells[self.to.cell()] == Square::Occupied(piece)
                        &&& piece.color == mover.other()
                        &&& piece.kind != PieceKind::King
                    },
                    None => cells[self.to.cell()] is Empty,
                }
                &&& match self.promotion {
                    Some(kind) => {
                        &&& self.kind == PieceKind::Pawn
                        &&& kind != PieceKind::Pawn
                        &&& kind != PieceKind::King
                    },
                    None => true,
                }
            },
            Some(SpecialMove::EnPassant) => {
                &&& self.kind == PieceKind::Pawn
                &&& self.promotion is None
                &&& self.captured == Some(Piece { kind: PieceKind::Pawn, color: mover.other() })
                &&& cells[self.to.cell()] is Empty
                &&& cells[self.capture_square().cell()] == Square::Occupied(
                    Piece { kind: PieceKind::Pawn, color: mover.other() },
                )
            },
            Some(SpecialMove::Castling) => {
                &&& self.kind == PieceKind::King
                &&& self.captured is None
                &&& self.promotion is None
                &&& self.from == king_home(mover)
                &&& self.to.rank == home_rank(mover)
                &&& (self.to.file == File::G || self.to.file == File::C)
                &&& cells[self.to.cell()] is Empty
                &&& cells[self.rook_to().cell()] is Empty
                &&& cells[self.rook_from().cell()] == Square::Occupied(
                    Piece { kind: PieceKind::Rook, color: mover },
                )
            },
        }
    }
}

/// What the cell `i` holds after `mover` has made the move `t` on `cells`.
pub open spec fn cell_after(cells: Seq<Square>, t: Transition, mover: Color, i: int) -> Square {
    if i == t.to.cell() {
        Square::Occupied(Piece { kind: t.landed_kind(), color: mover })
    } else if i == t.from.cell() {
        Square::Empty
    } else if t.captured is Some && i == t.capture_square().cell() {
        Square::Empty
    } else if t.is_castling() && i == t.rook_from().cell() {
        Square::Empty
    } else if t.is_castling() && i == t.rook_to().cell() {
        Square::Occupied(Piece { kind: PieceKind::Rook, color: mover })
    } else {
        cells[i]
    }
}

/// The board after `mover` has made the move `t` on `cells`.
pub open spec fn cells_after(cells: Seq<Square>, t: Transition, mover: Color) -> Seq<Square> {
    Seq::new(cells.len(), |i: int| cell_after(cells, t, mover, i))
}

/// What the cell `i` held before `mover` made the move `t` that led to
/// `cells`.
pub open spec fn cell_before(cells: Seq<Square>, t: Transition, mover: Color, i: int) -> Square {
    if i == t.from.cell() {
        Square::Occupied(Piece { kind: t.kind, color: mover })
    } else if t.captured is Some && i == t.capture_square().cell() {
        Square::Occupied(t.captured->0)
    } else if i == t.to.cell() {
        Square::Empty
    } else if t.is_castling() && i == t.rook_from().cell() {
        Square::Occupied(Piece { kind: PieceKind::Rook, color: mover })
    } else if t.is_castling() && i == t.rook_to().cell() {
        Square::Empty
    } else {
        cells[i]
    }
}

/// The board before `mover` made the move `t` that led to `cells`.
pub open spec fn cells_before(cells: Seq<Square>, t: Transition, mover: Color) -> Seq<Square> {
    Seq::new(cells.len(), |i: int| cell_before(cells, t, mover, i))
}

/// The kind of piece that starts on `file` of a side's home rank.
pub open spec fn back_rank_kind(file: File) -> PieceKind {
    match file {
        File::A | File::H => PieceKind::Rook,
        File::B | File::G => PieceKind::Knight,
        File::C | File::F => PieceKind::Bishop,
        File::D => PieceKind::Queen,
        File::E => PieceKind::King,
    }
}

/// What the square `pos` holds when a game starts.
pub open spec fn start_square(pos: Position) -> Square {
    match pos.rank {
        Rank::One => Square::Occupied(Piece { kind: back_rank_kind(pos.file), color: Color::White }),
        Rank::Two => Square::Occupied(Piece { kind: PieceKind::Pawn, color: Color::White }),
        Rank::Seven => Square::Occupied(Piece { kind: PieceKind::Pawn, color: Color::Black }),
        Rank::Eight => Square::Occupied(
            Piece { kind: back_rank_kind(pos.file), color: Color::Black },
        ),
        _ => Square::Empty,
    }
}

/// The board on which a game starts.
pub open spec fn start_cells() -> Seq<Square> {
    Seq::new(
        120,
        |i: int|
            if is_playable(i) {
                start_square(Position::at_cell(i))
            } else {
                Square::OffBoard
            },
    )
}

impl BoardView {
    /// The position in which a game starts: White to move, every castling
    /// right, no en-passant target, both counts at zero, no history.
    pub open spec fn start() -> BoardView {
        BoardView {
            grid: start_cells(),
            turn: Color::White,
            en_passant_target: None,
            counters: aggregate_of(start_cells()),
            kings: ColoredPair { white: king_home(Color::White), black: king_home(Color::Black) },
            position_key: ZobristKey(position_key(start_cells(), Color::White, 15, None)),
            castling_rights: 15,
            fifty_moves: 0,
            history: Seq::empty(),
            ply: 0,
        }
    }

    /// The caches agree with the board: the border holds sentinels and the
    /// squares do not, the counters are what a scan of the board yields, and
    /// the key is that of board, side to move, rights and target.
    pub open spec fn caches_agree(self) -> bool {
        &&& grid_wf(self.grid)
        &&& self.counters == aggregate_of(self.grid)
        &&& self.position_key == ZobristKey(
            position_key(self.grid, self.turn, self.castling_rights, self.en_passant_target),
        )
    }

    /// The side `color` has exactly one king, and it stands on the cached
    /// square.
    pub open spec fn king_tracked(self, color: Color) -> bool {
        &&& self.grid[self.kings.of(color).cell()] == Square::Occupied(
            Piece { kind: PieceKind::King, color },
        )
        &&& tally(self.grid, Some(color), Class::Kind(PieceKind::King), 64) == 1
    }

    /// Each side has exactly one king, and it stands on the cached square.
    pub open spec fn kings_tracked(self) -> bool {
        self.king_tracked(Color::White) && self.king_tracked(Color::Black)
    }

    /// The state is in order by itself, whatever its history holds.
    pub open spec fn sound(self) -> bool {
        &&& self.caches_agree()
        &&& self.kings_tracked()
        &&& self.castling_rights <= 15
        &&& self.ply == self.history.len()
    }

    /// The position is well formed: it is sound, and where it has a
    /// history, it is what its latest move made of a well-formed position.
    pub open spec fn wf(self) -> bool
        decreases self.history.len(),
    {
        &&& self.sound()
        &&& self.history.len() > 0 ==> {
            &&& self.unmake().wf()
            &&& self.unmake().accepts(self.history.last().move_)
            &&& self.unmake().make(self.history.last().move_) == self
        }
    }

    /// Why the position refuses the move `t`, if it does: the move does not
    /// fit the board, or a count is at its limit.
    pub open spec fn refusal(self, t: Transition) -> Option<PositionError> {
        if !t.fits(self.grid, self.turn) {
            Some(PositionError::Mismatch)
        } else if self.ply == u32::MAX || (!t.resets_clock() && self.fifty_moves == u8::MAX) {
            Some(PositionError::LimitReached)
        } else {
            None
        }
    }

    /// Whether the position takes the move `t`.
    pub open spec fn accepts(self, t: Transition) -> bool {
        self.refusal(t) is None
    }

    /// The record that is kept when the move `t` is applied.
    pub open spec fn record(self, t: Transition) -> Undo {
        Undo {
            move_: t,
            castling_rights: self.castling_rights,
            en_passant_target: self.en_passant_target,
            fifty_move_counter: self.fifty_moves,
            position_key: self.position_key,
        }
    }

    /// The position after the move `t`, for a move that it takes.
    pub open spec fn make(self, t: Transition) -> BoardView {
        let cells = cells_after(self.grid, t, self.turn);
        let rights = rights_after(self.castling_rights, t.from, t.to);
        let target = t.target_after();
        BoardView {
            grid: cells,
            turn: self.turn.other(),
            en_passant_target: target,
            counters: aggregate_of(cells),
            kings: if t.kind == PieceKind::King {
                self.kings.with(self.turn, t.to)
            } else {
                self.kings
            },
            position_key: ZobristKey(position_key(cells, self.turn.other(), rights, target)),
            castling_rights: rights,
            fifty_moves: if t.resets_clock() {
                0
            } else {
                (self.fifty_moves + 1) as u8
            },
            history: self.history.push(self.record(t)),
            ply: (self.ply + 1) as u32,
        }
    }

    /// The position before its latest move, for a position with a history.
    pub open spec fn unmake(self) -> BoardView {
        let last = self.history.last();
        let t = last.move_;
        let mover = self.turn.other();
        let cells = cells_before(self.grid, t, mover);
        BoardView {
            grid: cells,
            turn: mover,
            en_passant_target: last.en_passant_target,
            counters: aggregate_of(cells),
            kings: if t.kind == PieceKind::King {
                self.kings.with(mover, t.from)
            } else {
                self.kings
            },
            position_key: last.position_key,
            castling_rights: last.castling_rights,
            fifty_moves: last.fifty_move_counter,
            history: self.history.drop_last(),
            ply: (self.ply - 1) as u32,
        }
    }

    /// The position with `piece` put on the square `pos`, the caches
    /// following.
    pub open spec fn with_placed(self, pos: Position, piece: Piece) -> BoardView {
        let cells = self.grid.update(pos.cell(), Square::Occupied(piece));
        BoardView {
            grid: cells,
            counters: aggregate_of(cells),
            kings: if piece.kind == PieceKind::King {
                self.kings.with(piece.color, pos)
            } else {
                self.kings
            },
            position_key: ZobristKey(
                position_key(cells, self.turn, self.castling_rights, self.en_passant_target),
            ),
            ..self
        }
    }

    /// The position with the square `pos` emptied, the caches following.
    pub open spec fn with_lifted(self, pos: Position) -> BoardView {
        let cells = self.grid.update(pos.cell(), Square::Empty);
        BoardView {
            grid: cells,
            counters: aggregate_of(cells),
            position_key: ZobristKey(
                position_key(cells, self.turn, self.castling_rights, self.en_passant_target),
            ),
            ..self
        }
    }
}

/// One call on a position: applying a move, or undoing the latest one.
pub enum Step {
    Apply(Transition),
    Undo,
}

impl BoardView {
    /// The position after one call: after a move that it takes, the
    /// position that the move makes; after an undo with a history, the
    /// position before the latest move; after a call that is refused, the
    /// position itself.
    pub open spec fn step(self, s: Step) -> BoardView {
        match s {
            Step::Apply(t) => if self.accepts(t) {
                self.make(t)
            } else {
                self
            },
            Step::Undo => if self.history.len() > 0 {
                self.unmake()
            } else {
                self
            },
        }
    }

    /// The position after the calls `steps`, one after the other.
    pub open spec fn run(self, steps: Seq<Step>) -> BoardView
        decreases steps.len(),
    {
        if steps.len() == 0 {
            self
        } else {
            self.run(steps.drop_last()).step(steps.last())
        }
    }

    /// Whether the position takes the moves `moves`, each in the position
    /// that the moves before it have made.
    pub open spec fn accepts_all(self, moves: Seq<Transition>) -> bool
        decreases moves.len(),
    {
        moves.len() > 0 ==> self.accepts_all(moves.drop_last()) && self.make_all(
            moves.drop_last(),
        ).accepts(moves.last())
    }

    /// The position after the moves `moves`, one after the other.
    pub open spec fn make_all(self, moves: Seq<Transition>) -> BoardView
        decreases moves.len(),
    {
        if moves.len() == 0 {
            self
        } else {
            self.make_all(moves.drop_last()).make(moves.last())
        }
    }

    /// The position after `n` undos.
    pub open spec fn unmake_times(self, n: nat) -> BoardView
        decreases n,
    {
        if n == 0 {
            self
        } else {
            self.unmake().unmake_times((n - 1) as nat)
        }
    }
}

} // verus!
