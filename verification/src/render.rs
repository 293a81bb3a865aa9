//! The position as a diagram for a terminal: eight rows of coloured
//! squares, the eighth rank on top, with the ranks' digits on the left and
//! the files' letters below.

use crate::board::Board;
use crate::coord::{cell_of_ordinal, lemma_ordinal_is_square, Position, Rank};
use crate::grid::Square;
use crate::text::{
    embeds, lemma_embeds_chain, lemma_embeds_concat, lemma_embeds_itself, paint_background,
    push_char,
};
use vstd::prelude::*;

verus! {

/// The background colour of the square `pos`, as red, green and blue: the
/// lighter grey where file and rank numbers add up to an even number, the
/// darker grey elsewhere.
pub open spec fn shade(pos: Position) -> (u8, u8, u8) {
    if (pos.file.ord() + pos.rank.ord()) % 2 == 0 {
        (180u8, 180u8, 180u8)
    } else {
        (120u8, 120u8, 120u8)
    }
}

/// `inner` with one space before it and one after.
pub open spec fn framed(inner: Seq<char>) -> Seq<char> {
    seq![' '] + inner + seq![' ']
}

/// Three spaces: what a square without a piece shows.
pub open spec fn blank() -> Seq<char> {
    seq![' ', ' ', ' ']
}

/// What a square shows without any colouring: a piece's symbol between two
/// spaces, or three spaces.
pub open spec fn plain_cell(square: Square) -> Seq<char> {
    match square {
        Square::Occupied(piece) => framed(seq![piece.kind.glyph()]),
        _ => blank(),
    }
}

/// What the 64 squares of the board `grid` show without any colouring, the
/// text of square number `k` at index `k`.
pub open spec fn plain_cells(grid: Seq<Square>) -> Seq<Seq<char>> {
    Seq::new(64, |k: int| plain_cell(grid[cell_of_ordinal(k)]))
}

/// The texts of the strings `cells`.
pub open spec fn texts_of(cells: Seq<String>) -> Seq<Seq<char>> {
    Seq::new(cells.len(), |k: int| cells[k]@)
}

/// The text of the square with number `k` among `texts`; nothing where
/// `texts` is too short.
pub open spec fn cell_text(texts: Seq<Seq<char>>, k: int) -> Seq<char> {
    if 0 <= k < texts.len() {
        texts[k]
    } else {
        Seq::empty()
    }
}

/// The texts of the first `n` squares of the rank with number `rank`, one
/// after the other.
pub open spec fn row_cells(texts: Seq<Seq<char>>, rank: int, n: int) -> Seq<char>
    decreases n,
{
    if n <= 0 {
        Seq::empty()
    } else {
        row_cells(texts, rank, n - 1) + cell_text(texts, rank * 8 + n - 1)
    }
}

/// One row of the diagram: the rank's digit, a space, the rank's eight
/// squares from the file a to the file h, and a line break.
pub open spec fn row_text(texts: Seq<Seq<char>>, rank: int) -> Seq<char> {
    seq![Rank::of_ord(rank).digit(), ' '] + row_cells(texts, rank, 8) + seq!['\n']
}

/// The top `n` rows of the diagram, from the eighth rank downwards.
pub open spec fn rows_text(texts: Seq<Seq<char>>, n: int) -> Seq<char>
    decreases n,
{
    if n <= 0 {
        Seq::empty()
    } else {
        rows_text(texts, n - 1) + row_text(texts, 8 - n)
    }
}

/// The line below the rows: each file's letter under its squares.
pub open spec fn footer() -> Seq<char> {
    "   a  b  c  d  e  f  g  h\n"@
}

/// The diagram of a board whose squares show as `texts`, the text of
/// square number `k` at index `k`: eight rows and the line of letters.
pub open spec fn diagram(texts: Seq<Seq<char>>) -> Seq<char> {
    rows_text(texts, 8) + footer()
}

/// The diagram of the board `grid` without any colouring.
pub open spec fn plain_diagram(grid: Seq<Square>) -> Seq<char> {
    diagram(plain_cells(grid))
}

/// Whether each text of `outer` embeds the text of `inner` at its index.
pub open spec fn embed_each(outer: Seq<Seq<char>>, inner: Seq<Seq<char>>) -> bool {
    &&& outer.len() == inner.len()
    &&& forall|k: int| 0 <= k < outer.len() ==> embeds(#[trigger] outer[k], inner[k])
}

/// The squares of a rank embed what the squares embed one by one.
proof fn lemma_row_cells_embed(outer: Seq<Seq<char>>, inner: Seq<Seq<char>>, rank: int, n: int)
    requires
        embed_each(outer, inner),
    ensures
        embeds(row_cells(outer, rank, n), row_cells(inner, rank, n)),
    decreases n,
{
    if n > 0 {
        lemma_row_cells_embed(outer, inner, rank, n - 1);
        let k = rank * 8 + n - 1;
        if 0 <= k < outer.len() {
            assert(embeds(outer[k], inner[k]));
        }
        lemma_embeds_concat(
            row_cells(outer, rank, n - 1),
            row_cells(inner, rank, n - 1),
            cell_text(outer, k),
            cell_text(inner, k),
        );
    }
}

/// The top rows embed what the squares embed one by one.
proof fn lemma_rows_embed(outer: Seq<Seq<char>>, inner: Seq<Seq<char>>, n: int)
    requires
        embed_each(outer, inner),
    ensures
        embeds(rows_text(outer, n), rows_text(inner, n)),
    decreases n,
{
    if n > 0 {
        lemma_rows_embed(outer, inner, n - 1);
        let rank = 8 - n;
        let label = seq![Rank::of_ord(rank).digit(), ' '];
        let end = seq!['\n'];
        lemma_row_cells_embed(outer, inner, rank, 8);
        lemma_embeds_itself(label);
        lemma_embeds_itself(end);
        lemma_embeds_concat(label, label, row_cells(outer, rank, 8), row_cells(inner, rank, 8));
        lemma_embeds_concat(
            label + row_cells(outer, rank, 8),
            label + row_cells(inner, rank, 8),
            end,
            end,
        );
        lemma_embeds_concat(
            rows_text(outer, n - 1),
            rows_text(inner, n - 1),
            row_text(outer, rank),
            row_text(inner, rank),
        );
    }
}

/// A diagram embeds the diagram of what its squares embed: colouring the
/// squares leaves the plain diagram in the text.
pub proof fn lemma_diagram_embeds(outer: Seq<Seq<char>>, inner: Seq<Seq<char>>)
    requires
        embed_each(outer, inner),
    ensures
        embeds(diagram(outer), diagram(inner)),
{
    lemma_rows_embed(outer, inner, 8);
    lemma_embeds_itself(footer());
    lemma_embeds_concat(rows_text(outer, 8), rows_text(inner, 8), footer(), footer());
}

/// The background colour of the square `pos`.
pub fn background(pos: Position) -> (rgb: (u8, u8, u8))
    ensures
        rgb == shade(pos),
{
    if (pos.file.index() + pos.rank.index()) % 2 == 0 {
        (180, 180, 180)
    } else {
        (120, 120, 120)
    }
}

/// `inner` with one space before it and one after.
pub fn frame(inner: &str) -> (s: String)
    ensures
        s@ == framed(inner@),
{
    let mut s = String::new();
    push_char(&mut s, ' ');
    s.append(inner);
    push_char(&mut s, ' ');
    assert(s@ =~= framed(inner@));
    s
}

/// What the square content `square` shows before it gets its background:
/// a piece's styled symbol between two spaces, or three spaces. Whatever
/// the styling adds, the plain text of the square is in it.
pub fn cell_content(square: Square) -> (s: String)
    ensures
        embeds(s@, plain_cell(square)),
        !(square is Occupied) ==> s@ == blank(),
{
    match square {
        Square::Occupied(piece) => {
            let symbol = piece.to_string();
            let s = frame(symbol.as_str());
            proof {
                let space = seq![' '];
                let glyph = seq![piece.kind.glyph()];
                lemma_embeds_itself(space);
                lemma_embeds_concat(space, space, symbol@, glyph);
                lemma_embeds_concat(space + symbol@, space + glyph, space, space);
            }
            s
        },
        _ => {
            let mut s = String::new();
            push_char(&mut s, ' ');
            push_char(&mut s, ' ');
            push_char(&mut s, ' ');
            assert(s@ =~= blank());
            proof {
                lemma_embeds_itself(blank());
            }
            s
        },
    }
}

/// Sets the texts of 64 squares out as a diagram. The text of square
/// number `k` is taken from index `k`; a square that `cells` does not
/// reach shows nothing.
pub fn layout(cells: &Vec<String>) -> (s: String)
    ensures
        s@ == diagram(texts_of(cells@)),
{
    let ghost texts = texts_of(cells@);
    let mut out = String::new();
    let mut n: u8 = 0;
    while n < 8
        invariant
            n <= 8,
            texts == texts_of(cells@),
            out@ == rows_text(texts, n as int),
        decreases 8 - n,
    {
        let row: u8 = 7 - n;
        let ghost done = out@;
        let digit = match Rank::from_index(row) {
            Some(rank) => rank.to_char(),
            None => ' ',
        };
        push_char(&mut out, digit);
        push_char(&mut out, ' ');
        let mut f: u8 = 0;
        while f < 8
            invariant
                f <= 8,
                row < 8,
                texts == texts_of(cells@),
                out@ == done + seq![Rank::of_ord(row as int).digit(), ' '] + row_cells(
                    texts,
                    row as int,
                    f as int,
                ),
            decreases 8 - f,
        {
            let k: usize = (row * 8 + f) as usize;
            let ghost so_far = out@;
            if k < cells.len() {
                out.append(cells[k].as_str());
            }
            assert(out@ =~= so_far + cell_text(texts, row * 8 + f));
            f = f + 1;
            assert(out@ =~= done + seq![Rank::of_ord(row as int).digit(), ' '] + row_cells(
                texts,
                row as int,
                f as int,
            ));
        }
        push_char(&mut out, '\n');
        n = n + 1;
        assert(out@ =~= rows_text(texts, n as int));
    }
    out.append("   a  b  c  d  e  f  g  h\n");
    out
}

impl Board {
    /// The texts of the 64 squares, that of square number `k` at index
    /// `k`: what `cell_content` gives for the square, put on the square's
    /// `background` by the terminal styling. Whatever the styling adds,
    /// the plain text of each square is in its text.
    pub fn painted_cells(&self) -> (cells: Vec<String>)
        ensures
            embed_each(texts_of(cells@), plain_cells(self@.grid)),
    {
        let mut cells: Vec<String> = Vec::new();
        let mut k: u8 = 0;
        while k < 64
            invariant
                k <= 64,
                cells@.len() == k,
                forall|j: int|
                    0 <= j < k ==> embeds(
                        (#[trigger] cells@[j])@,
                        plain_cell(self@.grid[cell_of_ordinal(j)]),
                    ),
            decreases 64 - k,
        {
            proof {
                lemma_ordinal_is_square(k as int);
            }
            match Position::from_ordinal(k) {
                Some(pos) => {
                    let square = self.square_at(pos);
                    let content = cell_content(square);
                    let (r, g, b) = background(pos);
                    let painted = paint_background(content.as_str(), r, g, b);
                    proof {
                        lemma_embeds_chain(painted@, content@, plain_cell(square));
                    }
                    cells.push(painted);
                },
                None => {
                    cells.push(vstd::pervasive::unreached());
                },
            }
            k = k + 1;
        }
        assert(embed_each(texts_of(cells@), plain_cells(self@.grid))) by {
            assert forall|j: int| 0 <= j < 64 implies embeds(
                #[trigger] texts_of(cells@)[j],
                plain_cells(self@.grid)[j],
            ) by {
                assert(texts_of(cells@)[j] == cells@[j]@);
            }
        }
        cells
    }

    /// The position as a diagram for a terminal: the `diagram` of the 64
    /// painted squares. Whatever the styling adds, the text is the diagram
    /// of 64 texts that each hold the plain text of their square, so the
    /// plain diagram of the board is in it.
    pub fn to_string(&self) -> (s: String)
        ensures
            exists|texts: Seq<Seq<char>>|
                s@ == diagram(texts) && embed_each(texts, plain_cells(self@.grid)),
            embeds(s@, plain_diagram(self@.grid)),
    {
        let cells = self.painted_cells();
        proof {
            lemma_diagram_embeds(texts_of(cells@), plain_cells(self@.grid));
        }
        layout(&cells)
    }
}

} // verus!
