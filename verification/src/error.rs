//! The failures that the library signals.

use vstd::prelude::*;

verus! {

/// Why an operation was refused. What it was asked of is unchanged after a
/// refusal.
#[derive(Copy, Clone, Debug, PartialEq, Eq, Structural)]
pub enum PositionError {
    /// There is no move to undo.
    EmptyHistory,
    /// The cell is not a square of the board: it lies in the border of
    /// sentinels or outside the padded board.
    OffBoard,
    /// The move does not describe what stands on the board.
    Mismatch,
    /// The ply count or the fifty-move count cannot go higher.
    LimitReached,
}

} // verus!
