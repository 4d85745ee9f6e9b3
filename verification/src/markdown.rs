//! Building blocks of the rendered document's lightweight markup: headings,
//! paragraphs, bold spans, inline links, block quotes and list bullets.

use crate::text::push_all;
use vstd::prelude::*;

verus! {

/// `n` copies of `c`.
pub open spec fn spec_repeat_char(c: char, n: nat) -> Seq<char> {
    Seq::new(n, |i: int| c)
}

/// Append `n` copies of `c` to `out`.
pub fn push_repeat(out: &mut Vec<char>, c: char, n: usize)
    ensures
        final(out)@ == old(out)@ + spec_repeat_char(c, n as nat),
{
    let ghost out0 = out@;
    let mut i: usize = 0;
    while i < n
        invariant
            i <= n,
            out@ == out0 + spec_repeat_char(c, i as nat),
        decreases n - i,
    {
        out.push(c);
        assert(out0 + spec_repeat_char(c, i as nat) + seq![c] =~= out0 + spec_repeat_char(
            c,
            (i + 1) as nat,
        ));
        i += 1;
    }
}

/// A heading: `level` hash marks, a space, the text, and a blank line.
pub open spec fn spec_heading(level: nat, text: Seq<char>) -> Seq<char> {
    spec_repeat_char('#', level) + seq![' '] + text + seq!['\n', '\n']
}

/// Append a heading of the given level.
pub fn push_heading(out: &mut Vec<char>, level: usize, text: &Vec<char>)
    ensures
        final(out)@ == old(out)@ + spec_heading(level as nat, text@),
{
    let ghost out0 = out@;
    push_repeat(out, '#', level);
    out.push(' ');
    push_all(out, text);
    out.push('\n');
    out.push('\n');
    assert(out@ =~= out0 + spec_heading(level as nat, text@));
}

/// A paragraph: the text followed by a blank line.
pub open spec fn spec_paragraph(text: Seq<char>) -> Seq<char> {
    text + seq!['\n', '\n']
}

/// Append a paragraph.
pub fn push_paragraph(out: &mut Vec<char>, text: &Vec<char>)
    ensures
        final(out)@ == old(out)@ + spec_paragraph(text@),
{
    let ghost out0 = out@;
    push_all(out, text);
    out.push('\n');
    out.push('\n');
    assert(out@ =~= out0 + spec_paragraph(text@));
}

/// A bold span.
pub open spec fn spec_bold(text: Seq<char>) -> Seq<char> {
    seq!['*', '*'] + text + seq!['*', '*']
}

/// The text wrapped in a bold span.
pub fn bold_chars(text: &Vec<char>) -> (r: Vec<char>)
    ensures
        r@ == spec_bold(text@),
{
    let mut out: Vec<char> = Vec::new();
    out.push('*');
    out.push('*');
    push_all(&mut out, text);
    out.push('*');
    out.push('*');
    assert(out@ =~= spec_bold(text@));
    out
}

/// An inline link: the text in brackets, the target in parentheses.
pub open spec fn spec_link(text: Seq<char>, url: Seq<char>) -> Seq<char> {
    seq!['['] + text + seq![']', '('] + url + seq![')']
}

/// An inline link from link text and target.
pub fn link_chars(text: &Vec<char>, url: &Vec<char>) -> (r: Vec<char>)
    ensures
        r@ == spec_link(text@, url@),
{
    let mut out: Vec<char> = Vec::new();
    out.push('[');
    push_all(&mut out, text);
    out.push(']');
    out.push('(');
    push_all(&mut out, url);
    out.push(')');
    assert(out@ =~= spec_link(text@, url@));
    out
}

/// An unordered-list bullet: a dash, the entry, a line break.
pub open spec fn spec_bullet(text: Seq<char>) -> Seq<char> {
    seq!['-', ' '] + text + seq!['\n']
}

/// Append one list bullet.
pub fn push_bullet(out: &mut Vec<char>, text: &Vec<char>)
    ensures
        final(out)@ == old(out)@ + spec_bullet(text@),
{
    let ghost out0 = out@;
    out.push('-');
    out.push(' ');
    push_all(out, text);
    out.push('\n');
    assert(out@ =~= out0 + spec_bullet(text@));
}

/// A block quote: the text behind a quote marker.
pub open spec fn spec_block_quote(text: Seq<char>) -> Seq<char> {
    seq!['>', ' '] + text
}

/// The text behind a quote marker.
pub fn block_quote_chars(text: &Vec<char>) -> (r: Vec<char>)
    ensures
        r@ == spec_block_quote(text@),
{
    let mut out: Vec<char> = Vec::new();
    out.push('>');
    out.push(' ');
    push_all(&mut out, text);
    assert(out@ =~= spec_block_quote(text@));
    out
}

} // verus!
