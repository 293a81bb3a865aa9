//! The aggregate counters that a position caches on top of its board:
//! pawn bitboards and piece counts, each for White, for Black and for both.
//! They are defined by a scan of the board and kept by adding and removing
//! one piece at a time.

use crate::coord::{cell_of_ordinal, lemma_cell_is_playable, lemma_ordinal_is_square, Position};
use crate::grid::{Grid, Square};
use crate::piece::{Color, Piece, PieceKind};
use crate::tally::{
    counted, in_class, lemma_pawn_bits_membership, lemma_pawn_bits_update, lemma_tally_bounds,
    lemma_tally_update, pawn_bit, pawn_bits, square_bit, tally, weight, Class,
};
use vstd::prelude::*;

verus! {

/// A set of squares, one bit for each: bit `k` stands for square number `k`.
#[derive(Copy, Clone, Debug, PartialEq, Eq, Structural)]
pub struct Bitboard(pub u64);

impl Default for Bitboard {
    fn default() -> (b: Bitboard)
        ensures
            b == Bitboard(0),
    {
        Bitboard(0)
    }
}

/// How many pieces of each kind there are.
#[derive(Copy, Clone, Debug, PartialEq, Eq, Structural)]
pub struct PieceKindCounts {
    pub pawns: u8,
    pub knights: u8,
    pub bishops: u8,
    pub rooks: u8,
    pub queens: u8,
    pub kings: u8,
}

impl Default for PieceKindCounts {
    fn default() -> (c: PieceKindCounts)
        ensures
            c == (PieceKindCounts { pawns: 0, knights: 0, bishops: 0, rooks: 0, queens: 0, kings: 0 }),
    {
        PieceKindCounts { pawns: 0, knights: 0, bishops: 0, rooks: 0, queens: 0, kings: 0 }
    }
}

/// A value kept for White, for Black and for both sides together.
#[derive(Debug, PartialEq, Eq)]
pub struct ColoredData<T> {
    pub white: T,
    pub black: T,
    pub both: T,
}

impl<T: Copy> Copy for ColoredData<T> {}

impl<T: Copy> Clone for ColoredData<T> {
    fn clone(&self) -> (copy: ColoredData<T>)
        ensures
            copy == *self,
    {
        *self
    }
}

impl<T: Default> Default for ColoredData<T> {
    fn default() -> (d: ColoredData<T>)
        ensures
            call_ensures(T::default, (), d.white),
            call_ensures(T::default, (), d.black),
            call_ensures(T::default, (), d.both),
    {
        ColoredData { white: T::default(), black: T::default(), both: T::default() }
    }
}

/// A value kept for each of the two sides.
#[derive(Debug, PartialEq, Eq)]
pub struct ColoredPair<T> {
    pub white: T,
    pub black: T,
}

impl<T: Copy> Copy for ColoredPair<T> {}

impl<T: Copy> Clone for ColoredPair<T> {
    fn clone(&self) -> (copy: ColoredPair<T>)
        ensures
            copy == *self,
    {
        *self
    }
}

impl<T: Default> Default for ColoredPair<T> {
    fn default() -> (p: ColoredPair<T>)
        ensures
            call_ensures(T::default, (), p.white),
            call_ensures(T::default, (), p.black),
    {
        ColoredPair { white: T::default(), black: T::default() }
    }
}

impl<T> ColoredPair<T> {
    /// The value kept for `color`.
    pub open spec fn of(self, color: Color) -> T {
        match color {
            Color::White => self.white,
            Color::Black => self.black,
        }
    }

    /// This pair with `value` in the place of `color`.
    pub open spec fn with(self, color: Color, value: T) -> ColoredPair<T> {
        match color {
            Color::White => ColoredPair { white: value, black: self.black },
            Color::Black => ColoredPair { white: self.white, black: value },
        }
    }
}

impl<T: Copy> ColoredPair<T> {
    /// The value kept for `color`.
    pub fn get(&self, color: Color) -> (value: T)
        ensures
            value == self.of(color),
    {
        match color {
            Color::White => self.white,
            Color::Black => self.black,
        }
    }
}

impl<T> ColoredData<T> {
    /// The value kept for `side`, where no side means both.
    pub open spec fn of(self, side: Option<Color>) -> T {
        match side {
            Some(Color::White) => self.white,
            Some(Color::Black) => self.black,
            None => self.both,
        }
    }
}

impl<T: Copy> ColoredData<T> {
    /// The value kept for `side`, where no side means both.
    pub fn get(&self, side: Option<Color>) -> (value: T)
        ensures
            value == self.of(side),
    {
        match side {
            Some(Color::White) => self.white,
            Some(Color::Black) => self.black,
            None => self.both,
        }
    }
}

/// The aggregate counters of a position.
#[derive(Copy, Clone, Debug, PartialEq, Eq)]
pub struct Aggregate {
    /// The squares on which pawns stand.
    pub pawns: ColoredData<Bitboard>,
    /// The number of pieces of each kind.
    pub pieces: ColoredData<PieceKindCounts>,
    /// The number of pieces that are not pawns.
    pub big_pieces: ColoredData<u8>,
    /// The number of rooks and queens.
    pub major_pieces: ColoredData<u8>,
    /// The number of knights and bishops.
    pub minor_pieces: ColoredData<u8>,
}

/// The counts by kind that a scan of the first `n` squares yields for `side`.
pub open spec fn kind_counts(cells: Seq<Square>, side: Option<Color>, n: int) -> PieceKindCounts {
    PieceKindCounts {
        pawns: tally(cells, side, Class::Kind(PieceKind::Pawn), n) as u8,
        knights: tally(cells, side, Class::Kind(PieceKind::Knight), n) as u8,
        bishops: tally(cells, side, Class::Kind(PieceKind::Bishop), n) as u8,
        rooks: tally(cells, side, Class::Kind(PieceKind::Rook), n) as u8,
        queens: tally(cells, side, Class::Kind(PieceKind::Queen), n) as u8,
        kings: tally(cells, side, Class::Kind(PieceKind::King), n) as u8,
    }
}

/// The counts of one class that a scan of the first `n` squares yields.
pub open spec fn class_counts(cells: Seq<Square>, class: Class, n: int) -> ColoredData<u8> {
    ColoredData {
        white: tally(cells, Some(Color::White), class, n) as u8,
        black: tally(cells, Some(Color::Black), class, n) as u8,
        both: tally(cells, None, class, n) as u8,
    }
}

/// The aggregate counters that a scan of the first `n` squares yields.
pub open spec fn aggregate_upto(cells: Seq<Square>, n: int) -> Aggregate {
    Aggregate {
        pawns: ColoredData {
            white: Bitboard(pawn_bits(cells, Some(Color::White), n)),
            black: Bitboard(pawn_bits(cells, Some(Color::Black), n)),
            both: Bitboard(pawn_bits(cells, None, n)),
        },
        pieces: ColoredData {
            white: kind_counts(cells, Some(Color::White), n),
            black: kind_counts(cells, Some(Color::Black), n),
            both: kind_counts(cells, None, n),
        },
        big_pieces: class_counts(cells, Class::Big, n),
        major_pieces: class_counts(cells, Class::Major, n),
        minor_pieces: class_counts(cells, Class::Minor, n),
    }
}

/// The aggregate counters of a board: what a scan of its 64 squares yields.
pub open spec fn aggregate_of(cells: Seq<Square>) -> Aggregate {
    aggregate_upto(cells, 64)
}

/// The count `x` after one more piece, where the piece is counted under
/// `side` in `class`; `x` itself where it is not.
pub open spec fn count_plus(x: u8, piece: Piece, side: Option<Color>, class: Class) -> u8 {
    (x + weight(Square::Occupied(piece), side, class)) as u8
}

/// The count `x` after one piece fewer, where the piece is counted under
/// `side` in `class`; `x` itself where it is not.
pub open spec fn count_minus(x: u8, piece: Piece, side: Option<Color>, class: Class) -> u8 {
    (x - weight(Square::Occupied(piece), side, class)) as u8
}

/// The bitboard `b` with the bit of square `k` set, where the piece is a
/// pawn counted under `side`; `b` itself where it is not.
pub open spec fn bits_plus(b: Bitboard, piece: Piece, side: Option<Color>, k: int) -> Bitboard {
    if counted(Square::Occupied(piece), side, Class::Kind(PieceKind::Pawn)) {
        Bitboard(b.0 | square_bit(k))
    } else {
        b
    }
}

/// The bitboard `b` with the bit of square `k` cleared, where the piece is
/// a pawn counted under `side`; `b` itself where it is not.
pub open spec fn bits_minus(b: Bitboard, piece: Piece, side: Option<Color>, k: int) -> Bitboard {
    if counted(Square::Occupied(piece), side, Class::Kind(PieceKind::Pawn)) {
        Bitboard(b.0 & !square_bit(k))
    } else {
        b
    }
}

impl PieceKindCounts {
    /// These counts after one more `piece`, as far as `side` counts it.
    pub open spec fn plus(self, piece: Piece, side: Option<Color>) -> PieceKindCounts {
        PieceKindCounts {
            pawns: count_plus(self.pawns, piece, side, Class::Kind(PieceKind::Pawn)),
            knights: count_plus(self.knights, piece, side, Class::Kind(PieceKind::Knight)),
            bishops: count_plus(self.bishops, piece, side, Class::Kind(PieceKind::Bishop)),
            rooks: count_plus(self.rooks, piece, side, Class::Kind(PieceKind::Rook)),
            queens: count_plus(self.queens, piece, side, Class::Kind(PieceKind::Queen)),
            kings: count_plus(self.kings, piece, side, Class::Kind(PieceKind::King)),
        }
    }

    /// These counts after one `piece` fewer, as far as `side` counts it.
    pub open spec fn minus(self, piece: Piece, side: Option<Color>) -> PieceKindCounts {
        PieceKindCounts {
            pawns: count_minus(self.pawns, piece, side, Class::Kind(PieceKind::Pawn)),
            knights: count_minus(self.knights, piece, side, Class::Kind(PieceKind::Knight)),
            bishops: count_minus(self.bishops, piece, side, Class::Kind(PieceKind::Bishop)),
            rooks: count_minus(self.rooks, piece, side, Class::Kind(PieceKind::Rook)),
            queens: count_minus(self.queens, piece, side, Class::Kind(PieceKind::Queen)),
            kings: count_minus(self.kings, piece, side, Class::Kind(PieceKind::King)),
        }
    }

    /// These counts with the count of `kind` moved by `by`.
    pub open spec fn adjusted(self, kind: PieceKind, by: int) -> PieceKindCounts {
        PieceKindCounts {
            pawns: (self.pawns + (if kind == PieceKind::Pawn { by } else { 0 })) as u8,
            knights: (self.knights + (if kind == PieceKind::Knight { by } else { 0 })) as u8,
            bishops: (self.bishops + (if kind == PieceKind::Bishop { by } else { 0 })) as u8,
            rooks: (self.rooks + (if kind == PieceKind::Rook { by } else { 0 })) as u8,
            queens: (self.queens + (if kind == PieceKind::Queen { by } else { 0 })) as u8,
            kings: (self.kings + (if kind == PieceKind::King { by } else { 0 })) as u8,
        }
    }

    /// The count kept for `kind`.
    pub open spec fn of(self, kind: PieceKind) -> u8 {
        match kind {
            PieceKind::Pawn => self.pawns,
            PieceKind::Knight => self.knights,
            PieceKind::Bishop => self.bishops,
            PieceKind::Rook => self.rooks,
            PieceKind::Queen => self.queens,
            PieceKind::King => self.kings,
        }
    }

    /// The count kept for `kind`.
    pub fn get(&self, kind: PieceKind) -> (n: u8)
        ensures
            n == self.of(kind),
    {
        match kind {
            PieceKind::Pawn => self.pawns,
            PieceKind::Knight => self.knights,
            PieceKind::Bishop => self.bishops,
            PieceKind::Rook => self.rooks,
            PieceKind::Queen => self.queens,
            PieceKind::King => self.kings,
        }
    }

    /// Counts one more piece of `kind`.
    fn raise(&mut self, kind: PieceKind)
        requires
            old(self).of(kind) < u8::MAX,
        ensures
            *final(self) == old(self).adjusted(kind, 1),
    {
        match kind {
            PieceKind::Pawn => {
                self.pawns = self.pawns + 1;
            },
            PieceKind::Knight => {
                self.knights = self.knights + 1;
            },
            PieceKind::Bishop => {
                self.bishops = self.bishops + 1;
            },
            PieceKind::Rook => {
                self.rooks = self.rooks + 1;
            },
            PieceKind::Queen => {
                self.queens = self.queens + 1;
            },
            PieceKind::King => {
                self.kings = self.kings + 1;
            },
        }
    }

    /// Counts one piece of `kind` fewer.
    fn lower(&mut self, kind: PieceKind)
        requires
            old(self).of(kind) > 0,
        ensures
            *final(self) == old(self).adjusted(kind, -1),
    {
        match kind {
            PieceKind::Pawn => {
                self.pawns = self.pawns - 1;
            },
            PieceKind::Knight => {
                self.knights = self.knights - 1;
            },
            PieceKind::Bishop => {
                self.bishops = self.bishops - 1;
            },
            PieceKind::Rook => {
                self.rooks = self.rooks - 1;
            },
            PieceKind::Queen => {
                self.queens = self.queens - 1;
            },
            PieceKind::King => {
                self.kings = self.kings - 1;
            },
        }
    }
}

/// The counts `c` of one class after one more `piece`.
pub open spec fn class_plus(c: ColoredData<u8>, piece: Piece, class: Class) -> ColoredData<u8> {
    ColoredData {
        white: count_plus(c.white, piece, Some(Color::White), class),
        black: count_plus(c.black, piece, Some(Color::Black), class),
        both: count_plus(c.both, piece, None, class),
    }
}

/// The counts `c` of one class after one `piece` fewer.
pub open spec fn class_minus(c: ColoredData<u8>, piece: Piece, class: Class) -> ColoredData<u8> {
    ColoredData {
        white: count_minus(c.white, piece, Some(Color::White), class),
        black: count_minus(c.black, piece, Some(Color::Black), class),
        both: count_minus(c.both, piece, None, class),
    }
}

/// Counts one more piece of `color` in the counts of one class.
fn class_raise(c: &mut ColoredData<u8>, color: Color)
    requires
        old(c).of(Some(color)) < u8::MAX,
        old(c).both < u8::MAX,
    ensures
        final(c).both == old(c).both + 1,
        final(c).of(Some(color)) == old(c).of(Some(color)) + 1,
        final(c).of(Some(color.other())) == old(c).of(Some(color.other())),
{
    match color {
        Color::White => {
            c.white = c.white + 1;
        },
        Color::Black => {
            c.black = c.black + 1;
        },
    }
    c.both = c.both + 1;
}

/// Counts one piece of `color` fewer in the counts of one class.
fn class_lower(c: &mut ColoredData<u8>, color: Color)
    requires
        old(c).of(Some(color)) > 0,
        old(c).both > 0,
    ensures
        final(c).both == old(c).both - 1,
        final(c).of(Some(color)) == old(c).of(Some(color)) - 1,
        final(c).of(Some(color.other())) == old(c).of(Some(color.other())),
{
    match color {
        Color::White => {
            c.white = c.white - 1;
        },
        Color::Black => {
            c.black = c.black - 1;
        },
    }
    c.both = c.both - 1;
}

impl Aggregate {
    /// Counters of a board without pieces.
    pub open spec fn zero() -> Aggregate {
        Aggregate {
            pawns: ColoredData { white: Bitboard(0), black: Bitboard(0), both: Bitboard(0) },
            pieces: ColoredData {
                white: PieceKindCounts { pawns: 0, knights: 0, bishops: 0, rooks: 0, queens: 0, kings: 0 },
                black: PieceKindCounts { pawns: 0, knights: 0, bishops: 0, rooks: 0, queens: 0, kings: 0 },
                both: PieceKindCounts { pawns: 0, knights: 0, bishops: 0, rooks: 0, queens: 0, kings: 0 },
            },
            big_pieces: ColoredData { white: 0, black: 0, both: 0 },
            major_pieces: ColoredData { white: 0, black: 0, both: 0 },
            minor_pieces: ColoredData { white: 0, black: 0, both: 0 },
        }
    }

    /// These counters after `piece` has been put on the square `pos`.
    pub open spec fn plus(self, piece: Piece, pos: Position) -> Aggregate {
        Aggregate {
            pawns: ColoredData {
                white: bits_plus(self.pawns.white, piece, Some(Color::White), pos.ordinal()),
                black: bits_plus(self.pawns.black, piece, Some(Color::Black), pos.ordinal()),
                both: bits_plus(self.pawns.both, piece, None, pos.ordinal()),
            },
            pieces: ColoredData {
                white: self.pieces.white.plus(piece, Some(Color::White)),
                black: self.pieces.black.plus(piece, Some(Color::Black)),
                both: self.pieces.both.plus(piece, None),
            },
            big_pieces: class_plus(self.big_pieces, piece, Class::Big),
            major_pieces: class_plus(self.major_pieces, piece, Class::Major),
            minor_pieces: class_plus(self.minor_pieces, piece, Class::Minor),
        }
    }

    /// These counters after `piece` has been taken off the square `pos`.
    pub open spec fn minus(self, piece: Piece, pos: Position) -> Aggregate {
        Aggregate {
            pawns: ColoredData {
                white: bits_minus(self.pawns.white, piece, Some(Color::White), pos.ordinal()),
                black: bits_minus(self.pawns.black, piece, Some(Color::Black), pos.ordinal()),
                both: bits_minus(self.pawns.both, piece, None, pos.ordinal()),
            },
            pieces: ColoredData {
                white: self.pieces.white.minus(piece, Some(Color::White)),
                black: self.pieces.black.minus(piece, Some(Color::Black)),
                both: self.pieces.both.minus(piece, None),
            },
            big_pieces: class_minus(self.big_pieces, piece, Class::Big),
            major_pieces: class_minus(self.major_pieces, piece, Class::Major),
            minor_pieces: class_minus(self.minor_pieces, piece, Class::Minor),
        }
    }

    /// No count that one more `piece` raises is at its limit.
    pub open spec fn has_room(self, piece: Piece) -> bool {
        &&& self.pieces.of(Some(piece.color)).of(piece.kind) < u8::MAX
        &&& self.pieces.both.of(piece.kind) < u8::MAX
        &&& in_class(piece.kind, Class::Big) ==> self.big_pieces.of(Some(piece.color)) < u8::MAX
            && self.big_pieces.both < u8::MAX
        &&& in_class(piece.kind, Class::Major) ==> self.major_pieces.of(Some(piece.color))
            < u8::MAX && self.major_pieces.both < u8::MAX
        &&& in_class(piece.kind, Class::Minor) ==> self.minor_pieces.of(Some(piece.color))
            < u8::MAX && self.minor_pieces.both < u8::MAX
    }

    /// Every count that one `piece` fewer lowers is above zero.
    pub open spec fn has_one(self, piece: Piece) -> bool {
        &&& self.pieces.of(Some(piece.color)).of(piece.kind) > 0
        &&& self.pieces.both.of(piece.kind) > 0
        &&& in_class(piece.kind, Class::Big) ==> self.big_pieces.of(Some(piece.color)) > 0
            && self.big_pieces.both > 0
        &&& in_class(piece.kind, Class::Major) ==> self.major_pieces.of(Some(piece.color)) > 0
            && self.major_pieces.both > 0
        &&& in_class(piece.kind, Class::Minor) ==> self.minor_pieces.of(Some(piece.color)) > 0
            && self.minor_pieces.both > 0
    }

    /// Counters of a board without pieces.
    pub fn new() -> (a: Aggregate)
        ensures
            a == Aggregate::zero(),
    {
        Aggregate {
            pawns: ColoredData { white: Bitboard(0), black: Bitboard(0), both: Bitboard(0) },
            pieces: ColoredData {
                white: PieceKindCounts::default(),
                black: PieceKindCounts::default(),
                both: PieceKindCounts::default(),
            },
            big_pieces: ColoredData { white: 0, black: 0, both: 0 },
            major_pieces: ColoredData { white: 0, black: 0, both: 0 },
            minor_pieces: ColoredData { white: 0, black: 0, both: 0 },
        }
    }

    /// Whether these counters and `other` are equal in every part.
    pub fn same(&self, other: &Aggregate) -> (b: bool)
        ensures
            b == (*self == *other),
    {
        self.pawns.white == other.pawns.white && self.pawns.black == other.pawns.black
            && self.pawns.both == other.pawns.both && self.pieces.white == other.pieces.white
            && self.pieces.black == other.pieces.black && self.pieces.both == other.pieces.both
            && self.big_pieces.white == other.big_pieces.white && self.big_pieces.black
            == other.big_pieces.black && self.big_pieces.both == other.big_pieces.both
            && self.major_pieces.white == other.major_pieces.white && self.major_pieces.black
            == other.major_pieces.black && self.major_pieces.both == other.major_pieces.both
            && self.minor_pieces.white == other.minor_pieces.white && self.minor_pieces.black
            == other.minor_pieces.black && self.minor_pieces.both == other.minor_pieces.both
    }

    /// The counters of `grid`, from a scan of its 64 squares.
    pub fn scan(grid: &Grid) -> (a: Aggregate)
        ensures
            a == aggregate_of(grid@),
    {
        let mut a = Aggregate::new();
        let mut k: u8 = 0;
        proof {
            lemma_aggregate_scan(grid@, 0);
        }
        while k < 64
            invariant
                k <= 64,
                a == aggregate_upto(grid@, k as int),
            decreases 64 - k,
        {
            proof {
                lemma_aggregate_scan(grid@, k as int);
                lemma_ordinal_is_square(k as int);
            }
            if let Some(pos) = Position::from_ordinal(k) {
                if let Square::Occupied(piece) = grid.get(pos) {
                    a.add_piece(piece, pos);
                }
            }
            k = k + 1;
        }
        a
    }

    /// Takes `piece` on the square `pos` into the counters.
    pub fn add_piece(&mut self, piece: Piece, pos: Position)
        requires
            old(self).has_room(piece),
        ensures
            *final(self) == old(self).plus(piece, pos),
    {
        proof {
            lemma_cell_is_playable(pos);
        }
        let k: u8 = pos.to_ordinal();
        let bit: u64 = 1u64 << (k as u64);
        match piece.color {
            Color::White => {
                self.pieces.white.raise(piece.kind);
            },
            Color::Black => {
                self.pieces.black.raise(piece.kind);
            },
        }
        self.pieces.both.raise(piece.kind);
        match piece.kind {
            PieceKind::Pawn => {
                match piece.color {
                    Color::White => {
                        self.pawns.white = Bitboard(self.pawns.white.0 | bit);
                    },
                    Color::Black => {
                        self.pawns.black = Bitboard(self.pawns.black.0 | bit);
                    },
                }
                self.pawns.both = Bitboard(self.pawns.both.0 | bit);
            },
            PieceKind::Knight | PieceKind::Bishop => {
                class_raise(&mut self.big_pieces, piece.color);
                class_raise(&mut self.minor_pieces, piece.color);
            },
            PieceKind::Rook | PieceKind::Queen => {
                class_raise(&mut self.big_pieces, piece.color);
                class_raise(&mut self.major_pieces, piece.color);
            },
            PieceKind::King => {
                class_raise(&mut self.big_pieces, piece.color);
            },
        }
    }

    /// Takes `piece` on the square `pos` out of the counters.
    pub fn remove_piece(&mut self, piece: Piece, pos: Position)
        requires
            old(self).has_one(piece),
        ensures
            *final(self) == old(self).minus(piece, pos),
    {
        proof {
            lemma_cell_is_playable(pos);
        }
        let k: u8 = pos.to_ordinal();
        let bit: u64 = 1u64 << (k as u64);
        match piece.color {
            Color::White => {
                self.pieces.white.lower(piece.kind);
            },
            Color::Black => {
                self.pieces.black.lower(piece.kind);
            },
        }
        self.pieces.both.lower(piece.kind);
        match piece.kind {
            PieceKind::Pawn => {
                match piece.color {
                    Color::White => {
                        self.pawns.white = Bitboard(self.pawns.white.0 & !bit);
                    },
                    Color::Black => {
                        self.pawns.black = Bitboard(self.pawns.black.0 & !bit);
                    },
                }
                self.pawns.both = Bitboard(self.pawns.both.0 & !bit);
            },
            PieceKind::Knight | PieceKind::Bishop => {
                class_lower(&mut self.big_pieces, piece.color);
                class_lower(&mut self.minor_pieces, piece.color);
            },
            PieceKind::Rook | PieceKind::Queen => {
                class_lower(&mut self.big_pieces, piece.color);
                class_lower(&mut self.major_pieces, piece.color);
            },
            PieceKind::King => {
                class_lower(&mut self.big_pieces, piece.color);
            },
        }
    }
}

/// Every tally of a board moves with one square as its weight does, and
/// stays within the number of squares.
proof fn lemma_tallies_update(cells: Seq<Square>, pos: Position, s: Square)
    requires
        cells.len() == 120,
    ensures
        forall|side: Option<Color>, class: Class| #[trigger]
            tally(cells.update(pos.cell(), s), side, class, 64) == tally(cells, side, class, 64)
                + weight(s, side, class) - weight(cells[pos.cell()], side, class),
        forall|side: Option<Color>, class: Class|
            0 <= #[trigger] tally(cells, side, class, 64) <= 64,
        forall|side: Option<Color>, class: Class|
            0 <= #[trigger] tally(cells.update(pos.cell(), s), side, class, 64) <= 64,
{
    lemma_cell_is_playable(pos);
    assert forall|side: Option<Color>, class: Class| #[trigger]
        tally(cells.update(pos.cell(), s), side, class, 64) == tally(cells, side, class, 64)
            + weight(s, side, class) - weight(cells[pos.cell()], side, class) by {
        lemma_tally_update(cells, side, class, pos, s, 64);
    }
    assert forall|side: Option<Color>, class: Class|
        0 <= #[trigger] tally(cells, side, class, 64) <= 64 by {
        lemma_tally_bounds(cells, side, class, 64);
    }
    assert forall|side: Option<Color>, class: Class|
        0 <= #[trigger] tally(cells.update(pos.cell(), s), side, class, 64) <= 64 by {
        lemma_tally_bounds(cells.update(pos.cell(), s), side, class, 64);
    }
}

/// Putting a piece on a square that holds none changes the board's pawn
/// bitboard for `side` as `bits_plus` says.
proof fn lemma_pawn_bits_place(cells: Seq<Square>, side: Option<Color>, piece: Piece, pos: Position)
    requires
        cells.len() == 120,
        !(cells[pos.cell()] is Occupied),
    ensures
        Bitboard(pawn_bits(cells.update(pos.cell(), Square::Occupied(piece)), side, 64)) == bits_plus(
            Bitboard(pawn_bits(cells, side, 64)),
            piece,
            side,
            pos.ordinal(),
        ),
{
    lemma_cell_is_playable(pos);
    lemma_pawn_bits_update(cells, side, pos, Square::Occupied(piece), 64);
    lemma_pawn_bits_membership(cells, side, pos, 64);
    let a = pawn_bits(cells, side, 64);
    let m = square_bit(pos.ordinal());
    assert((a & !m) | m == a | m && (a & !m) | 0 == a) by (bit_vector)
        requires
            a & m == 0,
    ;
}

/// Taking the piece off a square changes the board's pawn bitboard for
/// `side` as `bits_minus` says.
proof fn lemma_pawn_bits_lift(cells: Seq<Square>, side: Option<Color>, piece: Piece, pos: Position)
    requires
        cells.len() == 120,
        cells[pos.cell()] == Square::Occupied(piece),
    ensures
        Bitboard(pawn_bits(cells.update(pos.cell(), Square::Empty), side, 64)) == bits_minus(
            Bitboard(pawn_bits(cells, side, 64)),
            piece,
            side,
            pos.ordinal(),
        ),
{
    lemma_cell_is_playable(pos);
    lemma_pawn_bits_update(cells, side, pos, Square::Empty, 64);
    lemma_pawn_bits_membership(cells, side, pos, 64);
    let a = pawn_bits(cells, side, 64);
    let m = square_bit(pos.ordinal());
    assert((a & !m) | 0 == a & !m) by (bit_vector);
    if a & m == 0 {
        assert((a & !m) | 0 == a) by (bit_vector)
            requires
                a & m == 0,
        ;
    }
}

/// Putting a piece on a square that holds none: the counters that a scan
/// of the new board yields are those of the old board with the piece added,
/// and none of the counts it raises was at its limit.
pub proof fn lemma_aggregate_place(cells: Seq<Square>, piece: Piece, pos: Position)
    requires
        cells.len() == 120,
        !(cells[pos.cell()] is Occupied),
    ensures
        aggregate_of(cells.update(pos.cell(), Square::Occupied(piece))) == aggregate_of(cells).plus(
            piece,
            pos,
        ),
        aggregate_of(cells).has_room(piece),
{
    lemma_tallies_update(cells, pos, Square::Occupied(piece));
    lemma_pawn_bits_place(cells, Some(Color::White), piece, pos);
    lemma_pawn_bits_place(cells, Some(Color::Black), piece, pos);
    lemma_pawn_bits_place(cells, None, piece, pos);
}

/// Taking the piece off a square: the counters that a scan of the new board
/// yields are those of the old board with the piece removed, and every
/// count it lowers was above zero.
pub proof fn lemma_aggregate_lift(cells: Seq<Square>, piece: Piece, pos: Position)
    requires
        cells.len() == 120,
        cells[pos.cell()] == Square::Occupied(piece),
    ensures
        aggregate_of(cells.update(pos.cell(), Square::Empty)) == aggregate_of(cells).minus(piece, pos),
        aggregate_of(cells).has_one(piece),
{
    lemma_tallies_update(cells, pos, Square::Empty);
    lemma_pawn_bits_lift(cells, Some(Color::White), piece, pos);
    lemma_pawn_bits_lift(cells, Some(Color::Black), piece, pos);
    lemma_pawn_bits_lift(cells, None, piece, pos);
}

/// One step of a scan: the counters of the first `n + 1` squares are those
/// of the first `n` with the piece on square `n` added, if it holds one.
pub proof fn lemma_aggregate_scan(cells: Seq<Square>, n: int)
    requires
        0 <= n < 64,
    ensures
        aggregate_upto(cells, 0) == Aggregate::zero(),
        aggregate_upto(cells, n + 1) == (match cells[cell_of_ordinal(n)] {
            Square::Occupied(piece) => aggregate_upto(cells, n).plus(piece, Position::at_ordinal(n)),
            _ => aggregate_upto(cells, n),
        }),
        cells[cell_of_ordinal(n)] matches Square::Occupied(piece) ==> aggregate_upto(cells, n).has_room(
            piece,
        ),
{
    lemma_ordinal_is_square(n);
    assert forall|side: Option<Color>, class: Class|
        0 <= #[trigger] tally(cells, side, class, n) <= n by {
        lemma_tally_bounds(cells, side, class, n);
    }
    assert forall|side: Option<Color>, class: Class| #[trigger]
        tally(cells, side, class, n + 1) == tally(cells, side, class, n) + weight(
            cells[cell_of_ordinal(n)],
            side,
            class,
        ) by {}
    assert forall|side: Option<Color>| #[trigger]
        pawn_bits(cells, side, n + 1) == pawn_bits(cells, side, n) | pawn_bit(
            cells[cell_of_ordinal(n)],
            side,
            n,
        ) by {}
    let w = pawn_bits(cells, Some(Color::White), n);
    let b = pawn_bits(cells, Some(Color::Black), n);
    let a = pawn_bits(cells, None, n);
    assert(w | 0 == w && b | 0 == b && a | 0 == a) by (bit_vector);
}

} // verus!
