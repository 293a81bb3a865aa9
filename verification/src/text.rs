//! Text output: what the library needs of strings from outside itself, the
//! terminal colouring of pieces and squares, and the one thing that holds
//! of coloured text whatever the terminal: the text is still in it.

use colored::Colorize;
use vstd::prelude::*;

verus! {

/// Whether `inner` can be had from `outer` by leaving characters out: the
/// characters of `inner` occur in `outer`, in their order.
pub open spec fn embeds(outer: Seq<char>, inner: Seq<char>) -> bool
    decreases outer.len(),
{
    if inner.len() == 0 {
        true
    } else if outer.len() == 0 {
        false
    } else {
        ||| outer.last() == inner.last() && embeds(outer.drop_last(), inner.drop_last())
        ||| embeds(outer.drop_last(), inner)
    }
}

/// Every text embeds itself.
pub proof fn lemma_embeds_itself(s: Seq<char>)
    ensures
        embeds(s, s),
    decreases s.len(),
{
    if s.len() > 0 {
        lemma_embeds_itself(s.drop_last());
    }
}

/// What is embedded in an embedded text is embedded in the outer text.
pub proof fn lemma_embeds_chain(a: Seq<char>, b: Seq<char>, c: Seq<char>)
    requires
        embeds(a, b),
        embeds(b, c),
    ensures
        embeds(a, c),
    decreases a.len(), b.len(),
{
    if c.len() > 0 {
        if a.last() == b.last() && embeds(a.drop_last(), b.drop_last()) {
            if b.last() == c.last() && embeds(b.drop_last(), c.drop_last()) {
                lemma_embeds_chain(a.drop_last(), b.drop_last(), c.drop_last());
            } else {
                lemma_embeds_chain(a.drop_last(), b.drop_last(), c);
            }
        } else {
            lemma_embeds_chain(a.drop_last(), b, c);
        }
    }
}

/// Two texts one after the other embed what each of them embeds, one
/// after the other.
pub proof fn lemma_embeds_concat(a: Seq<char>, b: Seq<char>, x: Seq<char>, y: Seq<char>)
    requires
        embeds(a, b),
        embeds(x, y),
    ensures
        embeds(a + x, b + y),
    decreases x.len(),
{
    if x.len() == 0 {
        assert(a + x =~= a);
        assert(b + y =~= b);
    } else {
        assert((a + x).drop_last() =~= a + x.drop_last());
        assert((a + x).last() == x.last());
        if y.len() > 0 && x.last() == y.last() && embeds(x.drop_last(), y.drop_last()) {
            lemma_embeds_concat(a, b, x.drop_last(), y.drop_last());
            assert((b + y).drop_last() =~= b + y.drop_last());
            assert((b + y).last() == y.last());
        } else {
            lemma_embeds_concat(a, b, x.drop_last(), y);
        }
    }
}

/// Appends `ch` to `s`, by `String::push` of the standard library: the
/// string afterwards is the string before with `ch` at its end.
#[verifier::external_body]
pub(crate) fn push_char(s: &mut String, ch: char)
    ensures
        final(s)@ == old(s)@.push(ch),
{
    s.push(ch);
}

/// Styles `glyph` as bold text in the foreground colour `(r, g, b)` and
/// formats it, by `Colorize::truecolor`, `Colorize::bold` and the `Display`
/// impl of `ColoredString` in the `colored` crate.
///
/// Whether escape sequences are added, and which, is decided by the
/// process's environment and terminal. Either way the formatted text is
/// the given text with, at most, escape sequences put before, into and
/// after it: this much is claimed, that the given text is embedded.
#[verifier::external_body]
pub(crate) fn paint_glyph(glyph: &str, r: u8, g: u8, b: u8) -> (out: String)
    ensures
        embeds(out@, glyph@),
{
    glyph.truecolor(r, g, b).bold().to_string()
}

/// Puts `content` on the background colour `(r, g, b)` and formats it, by
/// `Colorize::on_truecolor` and the `Display` impl of `ColoredString` in
/// the `colored` crate.
///
/// Whether escape sequences are added, and which, is decided by the
/// process's environment and terminal. Either way the formatted text is
/// the given text with, at most, escape sequences put before, into and
/// after it: this much is claimed, that the given text is embedded.
#[verifier::external_body]
pub(crate) fn paint_background(content: &str, r: u8, g: u8, b: u8) -> (out: String)
    ensures
        embeds(out@, content@),
{
    content.on_truecolor(r, g, b).to_string()
}

} // verus!
