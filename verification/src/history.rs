//! The history of a position: one record for each move that has been
//! applied and not yet undone, the latest on top.

use crate::coord::Position;
use crate::error::PositionError;
use crate::transition::Transition;
use crate::zobrist::ZobristKey;
use vstd::prelude::*;

verus! {

/// What is kept of a position when a move is applied, so that the move can
/// be undone: the move itself and what cannot be worked out backwards.
#[derive(Copy, Clone, Debug, PartialEq, Eq)]
pub struct Undo {
    /// The move that was applied.
    pub move_: Transition,
    /// The castling rights before the move.
    pub castling_rights: u8,
    /// The en-passant target before the move.
    pub en_passant_target: Option<Position>,
    /// The fifty-move count before the move.
    pub fifty_move_counter: u8,
    /// The position key before the move.
    pub position_key: ZobristKey,
}

/// A stack of undo records.
#[derive(Debug)]
pub struct History {
    records: Vec<Undo>,
}

impl View for History {
    type V = Seq<Undo>;

    closed spec fn view(&self) -> Seq<Undo> {
        self.records@
    }
}

impl Clone for History {
    fn clone(&self) -> (copy: History)
        ensures
            copy@ == self@,
    {
        let copy = History { records: self.records.clone() };
        assert(copy@ =~= self@);
        copy
    }
}

impl History {
    /// A history without records.
    pub fn new() -> (h: History)
        ensures
            h@ == Seq::<Undo>::empty(),
    {
        History { records: Vec::new() }
    }

    /// The number of records.
    pub fn len(&self) -> (n: usize)
        ensures
            n == self@.len(),
    {
        self.records.len()
    }

    /// Whether there is no record.
    pub fn is_empty(&self) -> (b: bool)
        ensures
            b == (self@.len() == 0),
    {
        self.records.len() == 0
    }

    /// The latest record, if there is one; the history keeps it.
    pub fn last(&self) -> (r: Option<Undo>)
        ensures
            r == (if self@.len() > 0 {
                Some(self@.last())
            } else {
                None
            }),
    {
        let n = self.records.len();
        if n > 0 {
            Some(self.records[n - 1])
        } else {
            None
        }
    }

    /// Puts `record` on top.
    pub fn push(&mut self, record: Undo)
        ensures
            final(self)@ == old(self)@.push(record),
    {
        self.records.push(record);
    }

    /// Takes the latest record off and returns it. On an empty history this
    /// fails with `EmptyHistory` and changes nothing.
    pub fn pop(&mut self) -> (r: Result<Undo, PositionError>)
        ensures
            old(self)@.len() > 0 ==> r == Ok::<Undo, PositionError>(old(self)@.last()) && final(self)@
                == old(self)@.drop_last(),
            old(self)@.len() == 0 ==> r == Err::<Undo, PositionError>(PositionError::EmptyHistory)
                && final(self)@ == old(self)@,
    {
        match self.records.pop() {
            Some(record) => Ok(record),
            None => Err(PositionError::EmptyHistory),
        }
    }
}

} // verus!
