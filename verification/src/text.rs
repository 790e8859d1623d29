//! How a generation is written down as text.

use crate::cell::symbol;
use vstd::prelude::*;

verus! {

/// What separates two lines of a rendered grid: a carriage return and a line
/// feed.
pub open spec fn line_break() -> Seq<char> {
    seq!['\r', '\n']
}

/// One row as text: the symbol of each cell, in column order.
pub open spec fn line(row: Seq<bool>) -> Seq<char> {
    Seq::new(row.len(), |x: int| symbol(row[x]))
}

/// A generation as text: its rows as lines, joined by line breaks, with no
/// line break after the last.
pub open spec fn render(cells: Seq<Seq<bool>>) -> Seq<char>
    decreases cells.len(),
{
    if cells.len() == 0 {
        Seq::empty()
    } else if cells.len() == 1 {
        line(cells[0])
    } else {
        render(cells.drop_last()) + line_break() + line(cells.last())
    }
}

/// What std says of `String::push`, taken on trust: it appends the given
/// character to the end of the string and changes nothing else.
pub assume_specification[ String::push ](text: &mut String, ch: char)
    ensures
        final(text)@ == old(text)@.push(ch),
;

} // verus!
