//! The padded mailbox board: 120 cells, of which 64 are squares and the
//! rest a border of sentinels.

use crate::coord::{is_playable, Position, SquareIndex, GRID_CELLS};
use crate::error::PositionError;
use crate::piece::Piece;
use vstd::prelude::*;

verus! {

/// What a cell of the padded board holds. `OffBoard` marks a border cell; a
/// square of the board holds `Empty` or `Occupied`.
#[derive(Copy, Clone, Debug, PartialEq, Eq, Structural)]
pub enum Square {
    Empty,
    Occupied(Piece),
    OffBoard,
}

impl Default for Square {
    fn default() -> (s: Square)
        ensures
            s == Square::OffBoard,
    {
        Square::OffBoard
    }
}

impl Square {
    /// The cell content that stands for an optional piece.
    pub open spec fn of(occupant: Option<Piece>) -> Square {
        match occupant {
            Some(piece) => Square::Occupied(piece),
            None => Square::Empty,
        }
    }

    /// The piece on the square, if it holds one.
    pub fn piece(self) -> (p: Option<Piece>)
        ensures
            p == (match self {
                Square::Occupied(piece) => Some(piece),
                _ => None::<Piece>,
            }),
    {
        match self {
            Square::Occupied(piece) => Some(piece),
            _ => None,
        }
    }
}

/// The cells of a padded board are in order: there are 120 of them, the
/// border cells hold the sentinel, and no square does.
pub open spec fn grid_wf(cells: Seq<Square>) -> bool {
    &&& cells.len() == GRID_CELLS
    &&& forall|i: int|
        0 <= i < GRID_CELLS ==> (is_playable(i) <==> !(#[trigger] cells[i] is OffBoard))
}

/// The cells of a board without pieces.
pub open spec fn empty_cells() -> Seq<Square> {
    Seq::new(
        GRID_CELLS as nat,
        |i: int|
            if is_playable(i) {
                Square::Empty
            } else {
                Square::OffBoard
            },
    )
}

/// The padded board. Its 64 squares are addressed by `Position`; raw cell
/// indices reach the border too, which only ever holds the sentinel.
#[derive(Debug)]
pub struct Grid {
    cells: [Square; 120],
}

impl View for Grid {
    type V = Seq<Square>;

    closed spec fn view(&self) -> Seq<Square> {
        self.cells@
    }
}

impl Clone for Grid {
    fn clone(&self) -> (copy: Grid)
        ensures
            copy@ == self@,
    {
        Grid { cells: self.cells }
    }
}

impl Grid {
    /// The border holds sentinels and the squares do not.
    pub open spec fn wf(&self) -> bool {
        grid_wf(self@)
    }

    /// A board without pieces: every cell is first a sentinel, then the 64
    /// squares are emptied.
    pub fn new() -> (grid: Grid)
        ensures
            grid@ == empty_cells(),
            grid.wf(),
    {
        let mut grid = Grid { cells: [Square::OffBoard;120] };
        let mut k: u8 = 0;
        while k < 64
            invariant
                k <= 64,
                grid@.len() == GRID_CELLS,
                forall|i: int|
                    0 <= i < GRID_CELLS ==> #[trigger] grid@[i] == (if is_playable(i) && i
                        < crate::coord::cell_of_ordinal(k as int) {
                        Square::Empty
                    } else {
                        Square::OffBoard
                    }),
            decreases 64 - k,
        {
            let index: usize = ((k / 8 + 2) * 10 + (k % 8 + 1)) as usize;
            grid.cells[index] = Square::Empty;
            k = k + 1;
        }
        assert(grid@ =~= empty_cells());
        grid
    }

    /// What the square `pos` holds.
    pub fn get(&self, pos: Position) -> (s: Square)
        ensures
            s == self@[pos.cell()],
            self.wf() ==> !(s is OffBoard),
    {
        proof {
            crate::coord::lemma_cell_is_playable(pos);
        }
        self.cells[pos.to_index() as usize]
    }

    /// What the cell `index` holds; the sentinel for an index past the last
    /// cell.
    pub fn at(&self, index: SquareIndex) -> (s: Square)
        ensures
            s == (if index < GRID_CELLS {
                self@[index as int]
            } else {
                Square::OffBoard
            }),
    {
        if (index as usize) < GRID_CELLS {
            self.cells[index as usize]
        } else {
            Square::OffBoard
        }
    }

    /// Writes the occupant of the square `pos`: a piece, or none. Only
    /// squares can be named, so the border is out of reach.
    pub fn set(&mut self, pos: Position, occupant: Option<Piece>)
        ensures
            final(self)@ == old(self)@.update(pos.cell(), Square::of(occupant)),
            old(self).wf() ==> final(self).wf(),
    {
        proof {
            crate::coord::lemma_cell_is_playable(pos);
        }
        let index: usize = pos.to_index() as usize;
        match occupant {
            Some(piece) => {
                self.cells[index] = Square::Occupied(piece);
            },
            None => {
                self.cells[index] = Square::Empty;
            },
        }
    }

    /// Writes the occupant of the cell `index`, for an index that has not
    /// been made from a square. A cell that is no square is never written:
    /// the call fails with `OffBoard` and changes nothing.
    pub fn set_at(&mut self, index: SquareIndex, occupant: Option<Piece>) -> (r: Result<
        (),
        PositionError,
    >)
        ensures
            is_playable(index as int) ==> r is Ok && final(self)@ == old(self)@.update(
                index as int,
                Square::of(occupant),
            ),
            !is_playable(index as int) ==> r == Err::<(), PositionError>(PositionError::OffBoard)
                && final(self)@ == old(self)@,
            old(self).wf() ==> final(self).wf(),
    {
        match Position::from_index(index) {
            Some(pos) => {
                self.set(pos, occupant);
                Ok(())
            },
            None => Err(PositionError::OffBoard),
        }
    }

    /// Whether the border holds sentinels and the squares do not, from a
    /// look at every cell.
    pub fn is_framed(&self) -> (b: bool)
        ensures
            b == self.wf(),
    {
        let mut i: u8 = 0;
        while i < 120
            invariant
                i <= 120,
                self@.len() == GRID_CELLS,
                forall|j: int|
                    0 <= j < i ==> (is_playable(j) <==> !(#[trigger] self@[j] is OffBoard)),
            decreases 120 - i,
        {
            let sentinel = match self.cells[i as usize] {
                Square::OffBoard => true,
                _ => false,
            };
            if sentinel == Position::from_index(i).is_some() {
                assert(is_playable(i as int) <==> self@[i as int] is OffBoard);
                return false;
            }
            i = i + 1;
        }
        true
    }

    /// All 120 cells, border included.
    pub fn cells(&self) -> (cells: &[Square; 120])
        ensures
            cells@ == self@,
    {
        &self.cells
    }
}

} // verus!
