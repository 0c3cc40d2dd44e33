//! The column of a position within its line.
//!
//! Lines are delimited by a line feed or a carriage return. The column of an
//! index is its distance from the start of its line, counted from one.

use vstd::prelude::*;

verus! {

/// `ch` ends a line: a line feed or a carriage return.
pub open spec fn line_break(ch: char) -> bool {
    ch == '\n' || ch == '\r'
}

/// The index at which the line that holds `index` starts: the nearest
/// position at or before `index` that is the start of the text or follows a
/// line break.
pub open spec fn line_start(text: Seq<char>, index: int) -> int
    decreases index,
{
    if index <= 0 || line_break(text[index - 1]) {
        index
    } else {
        line_start(text, index - 1)
    }
}

/// The column of `index`, counted from one.
pub open spec fn column(text: Seq<char>, index: int) -> int {
    index - line_start(text, index) + 1
}

/// Returns the column of `index` within its line, counted from one.
///
/// The scan walks back from `index` to the previous line break or to the
/// start of the text, so its cost is the length of the line, not of the text.
pub fn get_col(text: &[char], index: usize) -> (col: usize)
    requires
        index < text.len(),
    ensures
        col == column(text@, index as int),
        1 <= col <= index + 1,
        col == index + 1 || line_break(text@[index - col]),
        forall|k: int| index + 1 - col <= k < index ==> !line_break(#[trigger] text@[k]),
{
    let mut i: usize = index;
    while i > 0 && text[i - 1] != '\n' && text[i - 1] != '\r'
        invariant
            i <= index,
            index < text.len(),
            line_start(text@, i as int) == line_start(text@, index as int),
        decreases i,
    {
        i -= 1;
    }
    proof {
        lemma_line_start(text@, index as int);
    }
    index - i + 1
}

/// The start of a line is the one position at or before `index` that is the
/// start of the text or follows a line break, with no line break between it
/// and `index`.
pub proof fn lemma_line_start(text: Seq<char>, index: int)
    requires
        0 <= index <= text.len(),
    ensures
        0 <= line_start(text, index) <= index,
        line_start(text, index) == 0 || line_break(text[line_start(text, index) - 1]),
        forall|k: int| line_start(text, index) <= k < index ==> !line_break(#[trigger] text[k]),
    decreases index,
{
    if index > 0 && !line_break(text[index - 1]) {
        lemma_line_start(text, index - 1);
    }
}

/// A position that is the start of the text or follows a line break, with no
/// line break between it and `index`, is the start of the line of `index`.
pub proof fn lemma_line_start_unique(text: Seq<char>, index: int, start: int)
    requires
        0 <= start <= index <= text.len(),
        start == 0 || line_break(text[start - 1]),
        forall|k: int| start <= k < index ==> !line_break(#[trigger] text[k]),
    ensures
        line_start(text, index) == start,
        column(text, index) == index - start + 1,
    decreases index,
{
    if index > start {
        assert(!line_break(text[index - 1]));
        lemma_line_start_unique(text, index - 1, start);
    }
}

/// The first position of a line has column one, and within a line the
/// column grows by one from each position to the next.
pub proof fn lemma_column_steps(text: Seq<char>, index: int)
    requires
        0 <= index < text.len(),
    ensures
        index == 0 || line_break(text[index - 1]) <==> column(text, index) == 1,
        index > 0 && !line_break(text[index - 1]) ==> column(text, index) == column(
            text,
            index - 1,
        ) + 1,
{
    lemma_line_start(text, index);
}

} // verus!
