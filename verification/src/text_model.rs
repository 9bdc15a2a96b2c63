//! Mathematical model of line-structured text.
//!
//! A buffer is modelled as a `Seq<char>` in which `'\n'` terminates a line.
//! A text of `k` newlines has `k + 1` lines; the final line has no
//! terminator (it is empty when the text ends in a newline).  All coordinate
//! contracts of the crate are stated over the functions of this module.
use vstd::prelude::*;

verus! {

/// Number of newline characters strictly before position `i`.
/// This is exactly the line index of the character at `i`.
pub open spec fn newlines_before(text: Seq<char>, i: int) -> int
    decreases i,
{
    if i <= 0 {
        0
    } else {
        newlines_before(text, i - 1) + (if i - 1 < text.len() && text[i - 1] == '\n' {
            1int
        } else {
            0int
        })
    }
}

/// Line index of the character position `i` (positions `0 ..= text.len()`).
pub open spec fn line_of(text: Seq<char>, i: int) -> int {
    newlines_before(text, i)
}

/// Number of lines of the text: one more than its number of newlines.
/// An empty text has exactly one (empty) line.
pub open spec fn line_count(text: Seq<char>) -> int {
    newlines_before(text, text.len() as int) + 1
}

/// Position of the first newline at or after `i`, or `text.len()` if none.
pub open spec fn next_newline(text: Seq<char>, i: int) -> int
    decreases text.len() - i,
{
    if i < 0 || i >= text.len() {
        text.len() as int
    } else if text[i] == '\n' {
        i
    } else {
        next_newline(text, i + 1)
    }
}

/// First character position of line `l`; for `l == line_count(text)` this is
/// `text.len()` (one past the end).
pub open spec fn line_start(text: Seq<char>, l: int) -> int
    decreases l,
{
    if l <= 0 {
        0
    } else {
        let p = next_newline(text, line_start(text, l - 1));
        if p < text.len() {
            p + 1
        } else {
            text.len() as int
        }
    }
}

/// One past the last character position of line `l` (the start of line
/// `l + 1`); the terminating newline, if any, belongs to line `l`.
pub open spec fn line_end(text: Seq<char>, l: int) -> int {
    line_start(text, l + 1)
}

/// Character length of line `l`, terminator included.
pub open spec fn line_len(text: Seq<char>, l: int) -> int {
    line_end(text, l) - line_start(text, l)
}

/// The characters of line `l`, terminator included.
pub open spec fn line_text(text: Seq<char>, l: int) -> Seq<char> {
    text.subrange(line_start(text, l), line_end(text, l))
}

/// End-of-line position of line `l`: the position of its terminating
/// newline, or `line_end` when the line is unterminated (the last line).
/// This is the rightmost position a cursor may occupy on line `l`.
pub open spec fn line_eol(text: Seq<char>, l: int) -> int {
    let e = line_end(text, l);
    if e > line_start(text, l) && 0 <= e - 1 < text.len() && text[e - 1] == '\n' {
        e - 1
    } else {
        e
    }
}

/// Column of the rightmost cursor position on line `l`: the line's length
/// without its terminator.
pub open spec fn line_max_col(text: Seq<char>, l: int) -> int {
    line_eol(text, l) - line_start(text, l)
}

/// `newlines_before` counts at most one newline per position.
pub proof fn lemma_newlines_bounds(text: Seq<char>, i: int)
    requires
        0 <= i,
    ensures
        0 <= newlines_before(text, i) <= i,
    decreases i,
{
    if i > 0 {
        lemma_newlines_bounds(text, i - 1);
    }
}

/// `newlines_before` is monotonic in the position.
pub proof fn lemma_newlines_mono(text: Seq<char>, i: int, j: int)
    requires
        0 <= i <= j,
    ensures
        newlines_before(text, i) <= newlines_before(text, j),
    decreases j - i,
{
    if i < j {
        lemma_newlines_mono(text, i, j - 1);
    }
}

/// A stretch of text without newlines does not change the newline count.
pub proof fn lemma_newlines_constant(text: Seq<char>, i: int, j: int)
    requires
        0 <= i <= j,
        forall|k: int| i <= k < j ==> !(0 <= k < text.len() && text[k] == '\n'),
    ensures
        newlines_before(text, j) == newlines_before(text, i),
    decreases j - i,
{
    if i < j {
        lemma_newlines_constant(text, i, j - 1);
    }
}

/// Basic facts about `next_newline`: it lies between `i` and the end of the
/// text, it points at a newline unless there is none left, and no newline
/// comes before it.
pub proof fn lemma_next_newline(text: Seq<char>, i: int)
    requires
        0 <= i <= text.len(),
    ensures
        i <= next_newline(text, i) <= text.len(),
        next_newline(text, i) < text.len() ==> text[next_newline(text, i)] == '\n',
        forall|k: int| i <= k < next_newline(text, i) ==> text[k] != '\n',
        newlines_before(text, next_newline(text, i)) == newlines_before(text, i),
    decreases text.len() - i,
{
    if i < text.len() && text[i] != '\n' {
        lemma_next_newline(text, i + 1);
        lemma_newlines_constant(text, i, i + 1);
    }
}

/// `next_newline` is the least newline position at or after `i`.
pub proof fn lemma_next_newline_least(text: Seq<char>, i: int, k: int)
    requires
        0 <= i <= k < text.len(),
        text[k] == '\n',
    ensures
        next_newline(text, i) <= k,
    decreases k - i,
{
    if i < text.len() && text[i] != '\n' {
        lemma_next_newline_least(text, i + 1, k);
    }
}

/// Every line that the text has starts where the newline count says it
/// does: line `l` begins at a position with exactly `l` newlines before it,
/// and that position is preceded by a newline (unless it is line `0`).
pub proof fn lemma_line_start(text: Seq<char>, l: int)
    requires
        0 <= l <= newlines_before(text, text.len() as int),
    ensures
        0 <= line_start(text, l) <= text.len(),
        newlines_before(text, line_start(text, l)) == l,
        l > 0 ==> 0 < line_start(text, l) && text[line_start(text, l) - 1] == '\n',
    decreases l,
{
    if l > 0 {
        lemma_line_start(text, l - 1);
        let s = line_start(text, l - 1);
        let p = next_newline(text, s);
        lemma_next_newline(text, s);
        if p == text.len() {
            // no newline remains after line l-1's start, so the text holds
            // only l-1 newlines, contradicting l <= newlines_before(len)
            assert(newlines_before(text, text.len() as int) == l - 1);
        }
    }
}

/// One past the last line starts one past the end of the text.
pub proof fn lemma_line_start_at_end(text: Seq<char>)
    ensures
        line_start(text, line_count(text)) == text.len(),
{
    let n = newlines_before(text, text.len() as int);
    lemma_newlines_bounds(text, text.len() as int);
    lemma_line_start(text, n);
    let s = line_start(text, n);
    let p = next_newline(text, s);
    lemma_next_newline(text, s);
    if p < text.len() {
        lemma_newlines_mono(text, p + 1, text.len() as int);
        assert(newlines_before(text, p + 1) == n + 1);
    }
}

/// Line starts are monotonic in the line index.
pub proof fn lemma_line_start_mono(text: Seq<char>, l1: int, l2: int)
    requires
        0 <= l1 <= l2,
        l2 <= line_count(text),
    ensures
        line_start(text, l1) <= line_start(text, l2),
        line_start(text, l2) <= text.len(),
    decreases l2 - l1,
{
    lemma_newlines_bounds(text, text.len() as int);
    if l2 == line_count(text) {
        lemma_line_start_at_end(text);
        if l1 < l2 {
            lemma_line_start(text, l1);
        }
    } else if l1 < l2 {
        lemma_line_start_mono(text, l1, l2 - 1);
        let s = line_start(text, l2 - 1);
        lemma_line_start(text, l2 - 1);
        lemma_next_newline(text, s);
    }
}

/// The start of the line that a position lies on is at or before it.
/// This is the first half of the round-trip law between the two
/// coordinate conversions.
pub proof fn lemma_line_start_le(text: Seq<char>, i: int)
    requires
        0 <= i <= text.len(),
    ensures
        line_start(text, line_of(text, i)) <= i,
    decreases i,
{
    lemma_newlines_bounds(text, i);
    if i == 0 {
    } else {
        lemma_line_start_le(text, i - 1);
        if 0 <= i - 1 < text.len() && text[i - 1] == '\n' {
            let l = newlines_before(text, i - 1);
            let s = line_start(text, l);
            lemma_newlines_bounds(text, i - 1);
            lemma_newlines_mono(text, i, text.len() as int);
            lemma_line_start(text, l);
            lemma_next_newline_least(text, s, i - 1);
            lemma_next_newline(text, s);
            assert(line_of(text, i) == l + 1);
            assert(line_start(text, l + 1) == next_newline(text, s) + 1);
        }
    }
}

/// Every position from a line's start through its end-of-line position lies
/// on that line.
pub proof fn lemma_pos_on_line(text: Seq<char>, l: int, i: int)
    requires
        0 <= l < line_count(text),
        line_start(text, l) <= i <= line_eol(text, l),
    ensures
        line_of(text, i) == l,
{
    lemma_newlines_bounds(text, text.len() as int);
    lemma_line_start(text, l);
    let s = line_start(text, l);
    let p = next_newline(text, s);
    lemma_next_newline(text, s);
    assert(line_eol(text, l) <= p) by {
        if p < text.len() {
            assert(line_end(text, l) == p + 1);
        } else {
            assert(line_end(text, l) == text.len());
        }
    }
    lemma_newlines_constant(text, s, i);
}

/// Line indices round-trip: converting a line start back gives the same
/// line.  This is the second half of the round-trip law.
pub proof fn lemma_line_of_line_start(text: Seq<char>, l: int)
    requires
        0 <= l <= newlines_before(text, text.len() as int),
    ensures
        line_of(text, line_start(text, l)) == l,
{
    lemma_line_start(text, l);
}

/// Round-trip stability of the two coordinate conversions, for any
/// position of the text: the start of the line a position lies on is at
/// or before that position, and converting that line start back gives
/// the same line.
pub proof fn lemma_coordinate_round_trip(text: Seq<char>, i: int)
    requires
        0 <= i <= text.len(),
    ensures
        line_start(text, line_of(text, i)) <= i,
        line_of(text, line_start(text, line_of(text, i))) == line_of(text, i),
{
    lemma_line_start_le(text, i);
    lemma_newlines_bounds(text, i);
    lemma_newlines_mono(text, i, text.len() as int);
    lemma_line_of_line_start(text, line_of(text, i));
}

/// A position lies between the start and the end-of-line position of its
/// own line: a cursor that sits on a valid position is never past the end
/// of its line.
pub proof fn lemma_pos_le_eol(text: Seq<char>, i: int)
    requires
        0 <= i <= text.len(),
    ensures
        line_start(text, line_of(text, i)) <= i <= line_eol(text, line_of(text, i)),
        line_of(text, i) < line_count(text),
{
    let l = line_of(text, i);
    lemma_newlines_bounds(text, i);
    lemma_newlines_mono(text, i, text.len() as int);
    lemma_line_start_le(text, i);
    lemma_line_terminator(text, l);
    if l < line_count(text) - 1 {
        lemma_line_start(text, l + 1);
        if i >= line_start(text, l + 1) {
            lemma_newlines_mono(text, line_start(text, l + 1), i);
        }
    }
}

/// Where a line keeps its terminator: every line but the last ends in a
/// newline at `line_end - 1`; the last line's cursor range runs to its end.
pub proof fn lemma_line_terminator(text: Seq<char>, l: int)
    requires
        0 <= l < line_count(text),
    ensures
        l < line_count(text) - 1 ==> line_eol(text, l) == line_end(text, l) - 1,
        l == line_count(text) - 1 ==> line_eol(text, l) == line_end(text, l) == text.len(),
        line_start(text, l) <= line_eol(text, l),
    decreases 0int,
{
    lemma_newlines_bounds(text, text.len() as int);
    lemma_line_start(text, l);
    let s = line_start(text, l);
    let p = next_newline(text, s);
    lemma_next_newline(text, s);
    if l < line_count(text) - 1 {
        lemma_line_start(text, l + 1);
        assert(p < text.len()) by {
            if p == text.len() {
                assert(newlines_before(text, text.len() as int) == l);
            }
        }
        assert(line_end(text, l) == p + 1);
    } else {
        lemma_line_start_at_end(text);
        assert(line_end(text, l) == text.len());
        if text.len() > s && text[text.len() - 1] == '\n' {
            lemma_next_newline_least(text, s, text.len() - 1);
            assert(p < text.len());
            lemma_newlines_mono(text, p + 1, text.len() as int);
            assert(newlines_before(text, p + 1) == l + 1);
        }
    }
}

} // verus!
