//! Files, ranks and squares, and the arithmetic that maps a square to its
//! cell in the padded board.

use crate::text::push_char;
use vstd::prelude::*;

verus! {

/// Index of a cell in the padded board.
pub type SquareIndex = u8;

/// Number of cells of the padded board: twelve rows of ten cells.
pub const GRID_CELLS: usize = 120;

/// One of the eight files of the board, `A` on White's left.
#[derive(Copy, Clone, Debug, PartialEq, Eq, PartialOrd, Ord, Structural)]
pub enum File {
    A,
    B,
    C,
    D,
    E,
    F,
    G,
    H,
}

/// One of the eight ranks of the board, `One` nearest to White.
#[derive(Copy, Clone, Debug, PartialEq, Eq, PartialOrd, Ord, Structural)]
pub enum Rank {
    One,
    Two,
    Three,
    Four,
    Five,
    Six,
    Seven,
    Eight,
}

impl File {
    /// Zero-based number of the file: `A` is 0, `H` is 7.
    pub open spec fn ord(self) -> int {
        match self {
            File::A => 0,
            File::B => 1,
            File::C => 2,
            File::D => 3,
            File::E => 4,
            File::F => 5,
            File::G => 6,
            File::H => 7,
        }
    }

    /// The file with the given number; `H` for a number past 6.
    pub open spec fn of_ord(n: int) -> File {
        if n <= 0 {
            File::A
        } else if n == 1 {
            File::B
        } else if n == 2 {
            File::C
        } else if n == 3 {
            File::D
        } else if n == 4 {
            File::E
        } else if n == 5 {
            File::F
        } else if n == 6 {
            File::G
        } else {
            File::H
        }
    }

    /// The letter that names the file in algebraic notation.
    pub open spec fn letter(self) -> char {
        ('a' as int + self.ord()) as char
    }

    /// Zero-based number of the file.
    pub fn index(self) -> (i: u8)
        ensures
            i == self.ord(),
    {
        match self {
            File::A => 0,
            File::B => 1,
            File::C => 2,
            File::D => 3,
            File::E => 4,
            File::F => 5,
            File::G => 6,
            File::H => 7,
        }
    }

    /// The file with the given zero-based number, if there is one.
    pub fn from_index(i: u8) -> (f: Option<File>)
        ensures
            f is Some <==> i < 8,
            i < 8 ==> f == Some(File::of_ord(i as int)),
            f matches Some(x) ==> x.ord() == i,
    {
        match i {
            0 => Some(File::A),
            1 => Some(File::B),
            2 => Some(File::C),
            3 => Some(File::D),
            4 => Some(File::E),
            5 => Some(File::F),
            6 => Some(File::G),
            7 => Some(File::H),
            _ => None,
        }
    }

    /// The file's letter, `'a'` to `'h'`.
    pub fn to_char(self) -> (c: char)
        ensures
            c == self.letter(),
    {
        match self {
            File::A => 'a',
            File::B => 'b',
            File::C => 'c',
            File::D => 'd',
            File::E => 'e',
            File::F => 'f',
            File::G => 'g',
            File::H => 'h',
        }
    }
}

impl Rank {
    /// Zero-based number of the rank: `One` is 0, `Eight` is 7.
    pub open spec fn ord(self) -> int {
        match self {
            Rank::One => 0,
            Rank::Two => 1,
            Rank::Three => 2,
            Rank::Four => 3,
            Rank::Five => 4,
            Rank::Six => 5,
            Rank::Seven => 6,
            Rank::Eight => 7,
        }
    }

    /// The rank with the given number; `Eight` for a number past 6.
    pub open spec fn of_ord(n: int) -> Rank {
        if n <= 0 {
            Rank::One
        } else if n == 1 {
            Rank::Two
        } else if n == 2 {
            Rank::Three
        } else if n == 3 {
            Rank::Four
        } else if n == 4 {
            Rank::Five
        } else if n == 5 {
            Rank::Six
        } else if n == 6 {
            Rank::Seven
        } else {
            Rank::Eight
        }
    }

    /// The digit that names the rank in algebraic notation.
    pub open spec fn digit(self) -> char {
        ('1' as int + self.ord()) as char
    }

    /// Zero-based number of the rank.
    pub fn index(self) -> (i: u8)
        ensures
            i == self.ord(),
    {
        match self {
            Rank::One => 0,
            Rank::Two => 1,
            Rank::Three => 2,
            Rank::Four => 3,
            Rank::Five => 4,
            Rank::Six => 5,
            Rank::Seven => 6,
            Rank::Eight => 7,
        }
    }

    /// The rank with the given zero-based number, if there is one.
    pub fn from_index(i: u8) -> (r: Option<Rank>)
        ensures
            r is Some <==> i < 8,
            i < 8 ==> r == Some(Rank::of_ord(i as int)),
            r matches Some(x) ==> x.ord() == i,
    {
        match i {
            0 => Some(Rank::One),
            1 => Some(Rank::Two),
            2 => Some(Rank::Three),
            3 => Some(Rank::Four),
            4 => Some(Rank::Five),
            5 => Some(Rank::Six),
            6 => Some(Rank::Seven),
            7 => Some(Rank::Eight),
            _ => None,
        }
    }

    /// The rank's digit, `'1'` to `'8'`.
    pub fn to_char(self) -> (c: char)
        ensures
            c == self.digit(),
    {
        match self {
            Rank::One => '1',
            Rank::Two => '2',
            Rank::Three => '3',
            Rank::Four => '4',
            Rank::Five => '5',
            Rank::Six => '6',
            Rank::Seven => '7',
            Rank::Eight => '8',
        }
    }
}

/// A square of the board, named by its file and rank.
#[derive(Copy, Clone, Debug, PartialEq, Eq, Structural)]
pub struct Position {
    pub file: File,
    pub rank: Rank,
}

/// Whether `i` is the cell of a square: inside the padded board, and in
/// neither of the two border rows at each end nor in a border column.
pub open spec fn is_playable(i: int) -> bool {
    20 <= i < 100 && 1 <= i % 10 <= 8
}

/// The cell of the square with number `k`, squares being numbered rank by
/// rank from a1 (0) to h8 (63).
pub open spec fn cell_of_ordinal(k: int) -> int {
    (k / 8 + 2) * 10 + k % 8 + 1
}

impl Position {
    /// The cell of this square in the padded board.
    pub open spec fn cell(self) -> int {
        (self.rank.ord() + 2) * 10 + self.file.ord() + 1
    }

    /// The number of this square, from a1 (0) rank by rank to h8 (63).
    pub open spec fn ordinal(self) -> int {
        self.rank.ord() * 8 + self.file.ord()
    }

    /// The square whose cell is `i`, where `i` is the cell of a square.
    pub open spec fn at_cell(i: int) -> Position {
        Position { file: File::of_ord(i % 10 - 1), rank: Rank::of_ord(i / 10 - 2) }
    }

    /// The square with number `k`, for `k` from 0 to 63.
    pub open spec fn at_ordinal(k: int) -> Position {
        Position { file: File::of_ord(k % 8), rank: Rank::of_ord(k / 8) }
    }

    /// The square on `file` and `rank`.
    pub fn new(file: File, rank: Rank) -> (p: Position)
        ensures
            p == (Position { file, rank }),
    {
        Position { file, rank }
    }

    /// The cell of this square in the padded board.
    pub fn to_index(&self) -> (i: SquareIndex)
        ensures
            i == self.cell(),
    {
        (self.rank.index() + 2) * 10 + (self.file.index() + 1)
    }

    /// The number of this square, from a1 (0) rank by rank to h8 (63).
    pub fn to_ordinal(&self) -> (k: u8)
        ensures
            k == self.ordinal(),
    {
        self.rank.index() * 8 + self.file.index()
    }

    /// The square whose cell is `i`; `None` where `i` is a border cell or
    /// lies outside the padded board.
    pub fn from_index(i: SquareIndex) -> (p: Option<Position>)
        ensures
            p is Some <==> is_playable(i as int),
            is_playable(i as int) ==> p == Some(Position::at_cell(i as int)),
            p matches Some(x) ==> x.cell() == i,
    {
        if i < 20 || i >= 100 {
            return None;
        }
        let column: u8 = i % 10;
        let row: u8 = i / 10;
        if column < 1 || column > 8 {
            return None;
        }
        match (File::from_index(column - 1), Rank::from_index(row - 2)) {
            (Some(file), Some(rank)) => Some(Position { file, rank }),
            _ => None,
        }
    }

    /// The square in algebraic notation: the file's letter, then the rank's
    /// digit.
    pub fn to_string(&self) -> (s: String)
        ensures
            s@ == seq![self.file.letter(), self.rank.digit()],
    {
        let mut s = String::new();
        push_char(&mut s, self.file.to_char());
        push_char(&mut s, self.rank.to_char());
        assert(s@ =~= seq![self.file.letter(), self.rank.digit()]);
        s
    }

    /// The square with number `k`; `None` where `k` is past 63.
    pub fn from_ordinal(k: u8) -> (p: Option<Position>)
        ensures
            p is Some <==> k < 64,
            k < 64 ==> p == Some(Position::at_ordinal(k as int)),
            p matches Some(x) ==> x.ordinal() == k,
    {
        if k >= 64 {
            return None;
        }
        match (File::from_index(k % 8), Rank::from_index(k / 8)) {
            (Some(file), Some(rank)) => Some(Position { file, rank }),
            _ => None,
        }
    }
}

/// Every square has its cell among the playable ones, and its number below 64.
pub proof fn lemma_cell_is_playable(p: Position)
    ensures
        is_playable(p.cell()),
        0 <= p.ordinal() < 64,
        cell_of_ordinal(p.ordinal()) == p.cell(),
        Position::at_cell(p.cell()) == p,
        Position::at_ordinal(p.ordinal()) == p,
{
}

/// Two squares with the same cell are the same square.
pub proof fn lemma_cell_is_injective(p: Position, q: Position)
    ensures
        p.cell() == q.cell() ==> p == q,
        p.ordinal() == q.ordinal() ==> p == q,
{
    lemma_cell_is_playable(p);
    lemma_cell_is_playable(q);
}

/// Every playable cell is the cell of a square.
pub proof fn lemma_playable_is_cell(i: int)
    requires
        is_playable(i),
    ensures
        Position::at_cell(i).cell() == i,
        cell_of_ordinal(Position::at_cell(i).ordinal()) == i,
{
}

/// Every number below 64 is the number of a square, and its cell is playable.
pub proof fn lemma_ordinal_is_square(k: int)
    requires
        0 <= k < 64,
    ensures
        Position::at_ordinal(k).ordinal() == k,
        Position::at_ordinal(k).cell() == cell_of_ordinal(k),
        is_playable(cell_of_ordinal(k)),
{
}

} // verus!
