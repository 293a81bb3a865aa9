//! The position key: a hash of what makes two positions the same for
//! repetition and transposition, built so that every change folds in and
//! out by one exclusive-or.

use crate::coord::{cell_of_ordinal, lemma_cell_is_injective, lemma_cell_is_playable, lemma_ordinal_is_square, Position};
use crate::grid::Square;
use crate::piece::{Color, Piece};
use vstd::prelude::*;

verus! {

/// A position key.
#[derive(Copy, Clone, Debug, PartialEq, Eq, Structural)]
pub struct ZobristKey(pub u64);

impl Default for ZobristKey {
    fn default() -> (k: ZobristKey)
        ensures
            k == ZobristKey(0),
    {
        ZobristKey(0)
    }
}

/// First seed of the codes of pieces on cells; a piece's seed is this plus
/// 120 times its number plus its cell.
pub const PIECE_SEED: u64 = 1;

/// Seed of the code that marks Black to move.
pub const SIDE_SEED: u64 = 2000;

/// First seed of the codes of castling rights.
pub const RIGHTS_SEED: u64 = 3000;

/// First seed of the codes of en-passant targets.
pub const EN_PASSANT_SEED: u64 = 4000;

/// A fixed scrambling of 64 bits, by which a seed becomes a code: two
/// rounds of shifting, folding and multiplying, all of them wrapping.
pub open spec fn mix(x: u64) -> u64 {
    let a = x.wrapping_add(0x9E37_79B9_7F4A_7C15);
    let b = (a ^ (a >> 30)).wrapping_mul(0xBF58_476D_1CE4_E5B9);
    let c = (b ^ (b >> 27)).wrapping_mul(0x94D0_49BB_1331_11EB);
    c ^ (c >> 31)
}

/// The code of `x`.
pub fn mix_code(x: u64) -> (code: u64)
    ensures
        code == mix(x),
{
    let a = x.wrapping_add(0x9E37_79B9_7F4A_7C15);
    let b = (a ^ (a >> 30)).wrapping_mul(0xBF58_476D_1CE4_E5B9);
    let c = (b ^ (b >> 27)).wrapping_mul(0x94D0_49BB_1331_11EB);
    c ^ (c >> 31)
}

/// The code of `piece` standing on the cell `cell`.
pub open spec fn piece_code(piece: Piece, cell: int) -> u64 {
    mix((PIECE_SEED + (piece.color.ord() * 6 + piece.kind.ord()) * 120 + cell) as u64)
}

/// What the content `s` of the cell `cell` adds to a key: the code of the
/// piece on it, or nothing.
pub open spec fn square_code(s: Square, cell: int) -> u64 {
    match s {
        Square::Occupied(piece) => piece_code(piece, cell),
        _ => 0,
    }
}

/// What the side to move adds to a key: a fixed code for Black, nothing for
/// White.
pub open spec fn turn_code(turn: Color) -> u64 {
    match turn {
        Color::White => 0,
        Color::Black => mix(SIDE_SEED),
    }
}

/// What the castling rights add to a key.
pub open spec fn rights_code(rights: u8) -> u64 {
    mix((RIGHTS_SEED + rights) as u64)
}

/// What the en-passant target adds to a key: a code for its square, or
/// nothing where there is none.
pub open spec fn en_passant_code(target: Option<Position>) -> u64 {
    match target {
        Some(pos) => mix((EN_PASSANT_SEED + pos.cell()) as u64),
        None => 0,
    }
}

/// The exclusive-or of the codes of the pieces on the first `n` squares.
pub open spec fn occupancy_key(cells: Seq<Square>, n: int) -> u64
    decreases n,
{
    if n <= 0 {
        0
    } else {
        occupancy_key(cells, n - 1) ^ square_code(cells[cell_of_ordinal(n - 1)], cell_of_ordinal(n - 1))
    }
}

/// The key of a position: the codes of its pieces on their squares, of the
/// side to move, of the castling rights and of the en-passant target, all
/// combined by exclusive-or. It depends on nothing else.
pub open spec fn position_key(
    cells: Seq<Square>,
    turn: Color,
    rights: u8,
    target: Option<Position>,
) -> u64 {
    occupancy_key(cells, 64) ^ turn_code(turn) ^ rights_code(rights) ^ en_passant_code(target)
}

/// The code of `piece` standing on the square `pos`.
pub fn piece_code_at(piece: Piece, pos: Position) -> (code: u64)
    ensures
        code == piece_code(piece, pos.cell()),
{
    proof {
        lemma_cell_is_playable(pos);
    }
    let number: u64 = (piece.color.index() * 6 + piece.kind.index()) as u64;
    mix_code(PIECE_SEED + number * 120 + pos.to_index() as u64)
}

/// The code that marks Black to move.
pub fn side_code() -> (code: u64)
    ensures
        code == turn_code(Color::Black),
{
    mix_code(SIDE_SEED)
}

/// The code of the castling rights `rights`.
pub fn rights_code_of(rights: u8) -> (code: u64)
    ensures
        code == rights_code(rights),
{
    mix_code(RIGHTS_SEED + rights as u64)
}

/// The code of the en-passant target `target`.
pub fn en_passant_code_of(target: Option<Position>) -> (code: u64)
    ensures
        code == en_passant_code(target),
{
    match target {
        Some(pos) => {
            proof {
                lemma_cell_is_playable(pos);
            }
            mix_code(EN_PASSANT_SEED + pos.to_index() as u64)
        },
        None => 0,
    }
}

/// Changing one square changes the occupancy key by the codes of its old
/// and its new content.
pub proof fn lemma_occupancy_update(cells: Seq<Square>, pos: Position, s: Square, n: int)
    requires
        cells.len() == 120,
        0 <= n <= 64,
    ensures
        occupancy_key(cells.update(pos.cell(), s), n) == (if pos.ordinal() < n {
            occupancy_key(cells, n) ^ square_code(cells[pos.cell()], pos.cell()) ^ square_code(
                s,
                pos.cell(),
            )
        } else {
            occupancy_key(cells, n)
        }),
    decreases n,
{
    lemma_cell_is_playable(pos);
    if n > 0 {
        lemma_occupancy_update(cells, pos, s, n - 1);
        lemma_ordinal_is_square(n - 1);
        lemma_cell_is_injective(pos, Position::at_ordinal(n - 1));
        let a = occupancy_key(cells, n - 1);
        let stale = square_code(cells[pos.cell()], pos.cell());
        let fresh = square_code(s, pos.cell());
        if pos.ordinal() == n - 1 {
            assert(a ^ fresh == (a ^ stale) ^ stale ^ fresh) by (bit_vector);
        } else if pos.ordinal() < n - 1 {
            let c = square_code(cells[cell_of_ordinal(n - 1)], cell_of_ordinal(n - 1));
            assert((a ^ stale ^ fresh) ^ c == (a ^ c) ^ stale ^ fresh) by (bit_vector);
        }
    }
}

/// Changing one square changes the position key by the codes of its old and
/// its new content.
pub proof fn lemma_key_update(
    cells: Seq<Square>,
    turn: Color,
    rights: u8,
    target: Option<Position>,
    pos: Position,
    s: Square,
)
    requires
        cells.len() == 120,
    ensures
        position_key(cells.update(pos.cell(), s), turn, rights, target) == position_key(
            cells,
            turn,
            rights,
            target,
        ) ^ square_code(cells[pos.cell()], pos.cell()) ^ square_code(s, pos.cell()),
{
    lemma_cell_is_playable(pos);
    lemma_occupancy_update(cells, pos, s, 64);
    let o = occupancy_key(cells, 64);
    let t = turn_code(turn);
    let r = rights_code(rights);
    let e = en_passant_code(target);
    let x = square_code(cells[pos.cell()], pos.cell());
    let y = square_code(s, pos.cell());
    assert((o ^ x ^ y) ^ t ^ r ^ e == (o ^ t ^ r ^ e) ^ x ^ y) by (bit_vector);
}

/// Passing the move to the other side, with new castling rights and a new
/// en-passant target, changes the position key by the code that marks
/// Black and by the codes of the old and the new rights and targets.
pub proof fn lemma_key_advance(
    cells: Seq<Square>,
    turn: Color,
    rights: u8,
    target: Option<Position>,
    next_rights: u8,
    next_target: Option<Position>,
)
    ensures
        position_key(cells, turn.other(), next_rights, next_target) == position_key(
            cells,
            turn,
            rights,
            target,
        ) ^ turn_code(Color::Black) ^ rights_code(rights) ^ rights_code(next_rights)
            ^ en_passant_code(target) ^ en_passant_code(next_target),
{
    let o = occupancy_key(cells, 64);
    let s = turn_code(Color::Black);
    let r = rights_code(rights);
    let e = en_passant_code(target);
    let r2 = rights_code(next_rights);
    let e2 = en_passant_code(next_target);
    assert(o ^ s ^ r2 ^ e2 == (o ^ 0 ^ r ^ e) ^ s ^ r ^ r2 ^ e ^ e2 && o ^ 0 ^ r2 ^ e2 == (o ^ s ^ r
        ^ e) ^ s ^ r ^ r2 ^ e ^ e2) by (bit_vector);
}

/// Putting a piece on a square that holds none, or taking the piece off a
/// square, changes the position key by the code of the piece on the square.
pub proof fn lemma_key_toggle(
    cells: Seq<Square>,
    turn: Color,
    rights: u8,
    target: Option<Position>,
    pos: Position,
    piece: Piece,
)
    requires
        cells.len() == 120,
    ensures
        !(cells[pos.cell()] is Occupied) ==> position_key(
            cells.update(pos.cell(), Square::Occupied(piece)),
            turn,
            rights,
            target,
        ) == position_key(cells, turn, rights, target) ^ piece_code(piece, pos.cell()),
        cells[pos.cell()] == Square::Occupied(piece) ==> position_key(
            cells.update(pos.cell(), Square::Empty),
            turn,
            rights,
            target,
        ) == position_key(cells, turn, rights, target) ^ piece_code(piece, pos.cell()),
{
    let k = position_key(cells, turn, rights, target);
    let c = piece_code(piece, pos.cell());
    lemma_key_update(cells, turn, rights, target, pos, Square::Occupied(piece));
    lemma_key_update(cells, turn, rights, target, pos, Square::Empty);
    assert(k ^ 0 ^ c == k ^ c && k ^ c ^ 0 == k ^ c) by (bit_vector);
}

/// The key of `cells` with the given side to move, rights and target, from
/// a scan of the squares.
pub fn compute_key(
    grid: &crate::grid::Grid,
    turn: Color,
    rights: u8,
    target: Option<Position>,
) -> (key: ZobristKey)
    ensures
        key.0 == position_key(grid@, turn, rights, target),
{
    let mut acc: u64 = 0;
    let mut k: u8 = 0;
    while k < 64
        invariant
            k <= 64,
            acc == occupancy_key(grid@, k as int),
        decreases 64 - k,
    {
        proof {
            lemma_ordinal_is_square(k as int);
        }
        if let Some(pos) = Position::from_ordinal(k) {
            if let Square::Occupied(piece) = grid.get(pos) {
                acc = acc ^ piece_code_at(piece, pos);
            } else {
                assert(acc ^ 0 == acc) by (bit_vector);
            }
        }
        k = k + 1;
    }
    let side: u64 = match turn {
        Color::White => 0,
        Color::Black => side_code(),
    };
    ZobristKey(acc ^ side ^ rights_code_of(rights) ^ en_passant_code_of(target))
}

} // verus!
