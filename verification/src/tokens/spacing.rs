use vstd::prelude::*;

use crate::file::{SourceCursor, char_at, blank_run_end, lemma_blank_run_end};

verus! {

/// How many columns a tab counts for.
pub const TAB_WIDTH: usize = 4;

/// The columns that the spaces and tabs in `s[i..j]` take up.
pub open spec fn blank_width(s: Seq<char>, i: int, j: int) -> nat
    decreases j - i,
{
    if i >= j {
        0
    } else {
        blank_width(s, i, j - 1) + if s[j - 1] == ' ' {
            1nat
        } else {
            TAB_WIDTH as nat
        }
    }
}

proof fn lemma_blank_width_bound(s: Seq<char>, i: int, j: int)
    ensures
        blank_width(s, i, j) <= 4 * (if j > i { j - i } else { 0 }),
    decreases j - i,
{
    if i < j {
        lemma_blank_width_bound(s, i, j - 1);
    }
}

/// Reads the spaces and tabs at the cursor and returns their width.
pub fn count_spaces(cursor: &mut SourceCursor) -> (count: usize)
    requires
        old(cursor).wf(),
        old(cursor).absolute() + old(cursor).text().len() - old(cursor).index() <= usize::MAX,
        4 * old(cursor).text().len() <= usize::MAX,
    ensures
        final(cursor).wf(),
        final(cursor).text() == old(cursor).text(),
        final(cursor).index() == blank_run_end(old(cursor).text(), old(cursor).index() as int),
        final(cursor).absolute() == old(cursor).absolute() + final(cursor).index() - old(
            cursor,
        ).index(),
        count == blank_width(old(cursor).text(), old(cursor).index() as int, final(cursor).index() as int),
{
    let ghost s = cursor.text();
    let ghost start = cursor.index() as int;
    proof {
        lemma_blank_run_end(s, start);
    }
    let mut count: usize = 0;
    loop
        invariant
            cursor.wf(),
            cursor.text() == s,
            start <= cursor.index() <= blank_run_end(s, start),
            blank_run_end(s, start) <= s.len(),
            forall|j: int| start <= j < blank_run_end(s, start) ==> crate::file::is_blank(#[trigger] s[j]),
            !crate::file::is_blank(char_at(s, blank_run_end(s, start))),
            cursor.absolute() == old(cursor).absolute() + cursor.index() - start,
            old(cursor).absolute() + s.len() - start <= usize::MAX,
            4 * s.len() <= usize::MAX,
            count == blank_width(s, start, cursor.index() as int),
        ensures
            cursor.wf(),
            cursor.text() == s,
            cursor.index() == blank_run_end(s, start),
            cursor.absolute() == old(cursor).absolute() + cursor.index() - start,
            count == blank_width(s, start, cursor.index() as int),
        decreases s.len() - cursor.index(),
    {
        proof {
            lemma_blank_width_bound(s, start, cursor.index() as int);
        }
        let c = cursor.current();
        if c == ' ' {
            count += 1;
            cursor.advance();
        } else if c == '\t' {
            count += TAB_WIDTH;
            cursor.advance();
        } else {
            break;
        }
    }
    count
}

/// The length of the line break at `i`: `\n` or `\r\n`, or 0 when there is none.
pub open spec fn newline_len(s: Seq<char>, i: int) -> nat {
    if char_at(s, i) == '\n' {
        1
    } else if char_at(s, i) == '\r' && char_at(s, i + 1) == '\n' {
        2
    } else {
        0
    }
}

/// Reads a line break at the cursor, if there is one.
pub fn read_newline(cursor: &mut SourceCursor) -> (found: bool)
    requires
        old(cursor).wf(),
        old(cursor).absolute() + 2 <= usize::MAX,
    ensures
        final(cursor).wf(),
        final(cursor).text() == old(cursor).text(),
        found == (newline_len(old(cursor).text(), old(cursor).index() as int) > 0),
        final(cursor).index() == old(cursor).index() + newline_len(
            old(cursor).text(),
            old(cursor).index() as int,
        ),
        final(cursor).absolute() == old(cursor).absolute() + newline_len(
            old(cursor).text(),
            old(cursor).index() as int,
        ),
{
    if cursor.current() == '\n' {
        cursor.advance();
        true
    } else if cursor.current() == '\r' && cursor.next() == '\n' {
        cursor.advance();
        cursor.advance();
        true
    } else {
        false
    }
}

} // verus!
