//! A text buffer backed by a rope, with line/char coordinate conversion.
//!
//! The rope itself comes from the `ropey` crate (built without its extra
//! line-break types, so a line break is exactly `'\n'`); its behaviour is
//! assumed here, stated over the model of `crate::text_model`, and
//! everything on top of it is verified.
use vstd::prelude::*;

use crate::text_model::{
    lemma_line_start_at_end, lemma_line_start_mono, lemma_line_terminator, lemma_newlines_bounds,
    lemma_newlines_mono, line_count, line_len, line_max_col, line_of, line_start, line_text,
};

verus! {

#[verifier::external_type_specification]
#[verifier::external_body]
pub struct ExRope(ropey::Rope);

/// The characters a rope holds, in order.  All assumptions about `ropey`
/// are stated through this function.
pub uninterp spec fn rope_text(r: ropey::Rope) -> Seq<char>;

/// Relies on ropey::Rope::new: an empty rope.
pub assume_specification[ ropey::Rope::new ]() -> (r: ropey::Rope)
    ensures
        rope_text(r) == Seq::<char>::empty(),
;

/// Relies on ropey::Rope::from_str: the rope holds exactly the chars of the
/// slice.
pub assume_specification[ ropey::Rope::from_str ](text: &str) -> (r: ropey::Rope)
    ensures
        rope_text(r) == text@,
;

/// Relies on ropey::Rope::len_chars: the total number of chars.
pub assume_specification[ ropey::Rope::len_chars ](r: &ropey::Rope) -> (n: usize)
    ensures
        n == rope_text(*r).len(),
;

/// Relies on ropey::Rope::len_lines: one more than the number of line
/// breaks, which is one more than the number of newlines in this build.
pub assume_specification[ ropey::Rope::len_lines ](r: &ropey::Rope) -> (n: usize)
    ensures
        n == line_count(rope_text(*r)),
;

/// Relies on ropey::Rope::char_to_line: the number of line breaks before
/// the char; a one-past-the-end index gives the last line.  Panics above
/// that, which the precondition rules out.
pub assume_specification[ ropey::Rope::char_to_line ](r: &ropey::Rope, char_idx: usize) -> (line: usize)
    requires
        char_idx <= rope_text(*r).len(),
    ensures
        line == line_of(rope_text(*r), char_idx as int),
;

/// Relies on ropey::Rope::line_to_char: the char index where the line
/// begins; a one-past-the-end line index gives the char length.  Panics
/// above that, which the precondition rules out.
pub assume_specification[ ropey::Rope::line_to_char ](r: &ropey::Rope, line_idx: usize) -> (c: usize)
    requires
        (line_idx as int) <= line_count(rope_text(*r)),
    ensures
        c == line_start(rope_text(*r), line_idx as int),
;

/// Relies on ropey::Rope::insert: splices the chars of `text` in at
/// `char_idx`.  Panics past the end, which the precondition rules out.
pub assume_specification[ ropey::Rope::insert ](r: &mut ropey::Rope, char_idx: usize, text: &str)
    requires
        char_idx <= rope_text(*old(r)).len(),
        rope_text(*old(r)).len() + text@.len() <= usize::MAX,
    ensures
        rope_text(*final(r)) == rope_text(*old(r)).subrange(0, char_idx as int) + text@
            + rope_text(*old(r)).subrange(char_idx as int, rope_text(*old(r)).len() as int),
;

/// Relies on ropey::Rope::insert_char: splices one char in at `char_idx`.
/// Panics past the end, which the precondition rules out.
pub assume_specification[ ropey::Rope::insert_char ](r: &mut ropey::Rope, char_idx: usize, ch: char)
    requires
        char_idx <= rope_text(*old(r)).len(),
        rope_text(*old(r)).len() + 1 <= usize::MAX,
    ensures
        rope_text(*final(r)) == rope_text(*old(r)).subrange(0, char_idx as int) + seq![ch]
            + rope_text(*old(r)).subrange(char_idx as int, rope_text(*old(r)).len() as int),
;

/// Relies on ropey::Rope::remove: removes the chars of `start..end`.
/// Panics when the range is inverted or past the end, which the
/// preconditions rule out.
#[verifier::external_body]
fn rope_remove(r: &mut ropey::Rope, start: usize, end: usize)
    requires
        start <= end,
        (end as int) <= rope_text(*old(r)).len(),
    ensures
        rope_text(*final(r)) == rope_text(*old(r)).subrange(0, start as int)
            + rope_text(*old(r)).subrange(end as int, rope_text(*old(r)).len() as int),
{
    r.remove(start..end);
}

/// Relies on ropey::Rope::line (the chars of the line, terminator
/// included, from its start to the start of the next line) and on
/// `String: From<RopeSlice>` (the same chars as a `String`).  `line`
/// panics past the last line, which the precondition rules out.
#[verifier::external_body]
fn rope_line_string(r: &ropey::Rope, line_idx: usize) -> (s: String)
    requires
        (line_idx as int) < line_count(rope_text(*r)),
    ensures
        s@ == line_text(rope_text(*r), line_idx as int),
{
    String::from(r.line(line_idx))
}

/// Relies on `String: From<&Rope>`: the whole text as a `String`.
#[verifier::external_body]
fn rope_string(r: &ropey::Rope) -> (s: String)
    ensures
        s@ == rope_text(*r),
{
    String::from(r)
}

/// One rope-structured text body, the path it was loaded from (if any),
/// and whether it has been changed since it was last persisted.
pub struct TextBuffer {
    /// The rope that holds the text.
    pub text: ropey::Rope,
    /// Where the text came from and where it is to be saved.
    pub path: Option<String>,
    /// True once the text diverges from its last persisted state.
    pub dirty: bool,
}

impl View for TextBuffer {
    type V = Seq<char>;

    open spec fn view(&self) -> Seq<char> {
        rope_text(self.text)
    }
}

impl TextBuffer {
    /// An empty buffer: no text, no path, nothing to persist.
    /// It still has exactly one (empty) line.
    pub fn new() -> (b: TextBuffer)
        ensures
            b@ == Seq::<char>::empty(),
            b.path is None,
            !b.dirty,
    {
        TextBuffer { text: ropey::Rope::new(), path: None, dirty: false }
    }

    /// A buffer seeded with `text` exactly as given, line terminators
    /// preserved.  The surrounding application reads files; this takes
    /// their content.
    pub fn from_text(text: &str, path: Option<String>) -> (b: TextBuffer)
        ensures
            b@ == text@,
            b.path == path,
            !b.dirty,
    {
        TextBuffer { text: ropey::Rope::from_str(text), path, dirty: false }
    }

    /// Total number of chars.
    pub fn len_chars(&self) -> (n: usize)
        ensures
            n == self@.len(),
    {
        self.text.len_chars()
    }

    /// Number of lines; an empty buffer has one.
    pub fn line_count(&self) -> (n: usize)
        ensures
            n == line_count(self@),
            n >= 1,
    {
        proof {
            lemma_newlines_bounds(self@, self@.len() as int);
        }
        self.text.len_lines()
    }

    /// Line index of the char at `char_idx`; `char_idx` may be
    /// one-past-the-end, which gives the last line.
    pub fn char_to_line(&self, char_idx: usize) -> (line: usize)
        requires
            char_idx <= self@.len(),
        ensures
            line == line_of(self@, char_idx as int),
            line < line_count(self@),
    {
        proof {
            lemma_newlines_mono(self@, char_idx as int, self@.len() as int);
        }
        self.text.char_to_line(char_idx)
    }

    /// Char index where line `line_idx` starts; `line_idx` may be
    /// one-past-the-last-line, which gives the char length.
    pub fn line_to_char(&self, line_idx: usize) -> (c: usize)
        requires
            (line_idx as int) <= line_count(self@),
        ensures
            c == line_start(self@, line_idx as int),
            c <= self@.len(),
    {
        proof {
            lemma_line_start_mono(self@, line_idx as int, line_count(self@));
            lemma_line_start_at_end(self@);
        }
        self.text.line_to_char(line_idx)
    }

    /// Line index of the char at `char_idx`, or `None` when `char_idx`
    /// lies past the one-past-the-end boundary: the explicit signal for
    /// callers that do not clamp first.
    pub fn try_char_to_line(&self, char_idx: usize) -> (r: Option<usize>)
        ensures
            match r {
                Some(line) => char_idx <= self@.len() && line == line_of(self@, char_idx as int),
                None => char_idx > self@.len(),
            },
    {
        let n = self.len_chars();
        if char_idx <= n {
            Some(self.char_to_line(char_idx))
        } else {
            None
        }
    }

    /// Char index where line `line_idx` starts, or `None` when `line_idx`
    /// lies past the one-past-the-last-line boundary: the explicit signal
    /// for callers that do not clamp first.
    pub fn try_line_to_char(&self, line_idx: usize) -> (r: Option<usize>)
        ensures
            match r {
                Some(c) => (line_idx as int) <= line_count(self@) && c == line_start(
                    self@,
                    line_idx as int,
                ),
                None => (line_idx as int) > line_count(self@),
            },
    {
        let n = self.line_count();
        if line_idx <= n {
            Some(self.line_to_char(line_idx))
        } else {
            None
        }
    }

    /// The chars of line `line_idx`, terminator included, or `None` when
    /// there is no such line.
    pub fn get_line(&self, line_idx: usize) -> (r: Option<String>)
        ensures
            match r {
                Some(s) => (line_idx as int) < line_count(self@) && s@ == line_text(
                    self@,
                    line_idx as int,
                ),
                None => line_idx as int >= line_count(self@),
            },
    {
        let n = self.line_count();
        if line_idx < n {
            Some(rope_line_string(&self.text, line_idx))
        } else {
            None
        }
    }

    /// The chars of line `line_idx`, terminator included.
    pub fn line(&self, line_idx: usize) -> (s: String)
        requires
            (line_idx as int) < line_count(self@),
        ensures
            s@ == line_text(self@, line_idx as int),
    {
        rope_line_string(&self.text, line_idx)
    }

    /// Char length of line `line_idx`, terminator included.
    pub fn line_len(&self, line_idx: usize) -> (n: usize)
        requires
            (line_idx as int) < line_count(self@),
        ensures
            n == line_len(self@, line_idx as int),
    {
        let n = self.line_count();
        let s = self.line_to_char(line_idx);
        proof {
            lemma_line_start_mono(self@, line_idx as int, line_idx + 1);
        }
        let e = self.line_to_char(line_idx + 1);
        e - s
    }

    /// Rightmost cursor column on line `line_idx`: the line's length
    /// without its terminator.
    pub fn line_max_col(&self, line_idx: usize) -> (n: usize)
        requires
            (line_idx as int) < line_count(self@),
        ensures
            n == line_max_col(self@, line_idx as int),
    {
        let count = self.line_count();
        let ll = self.line_len(line_idx);
        proof {
            lemma_line_terminator(self@, line_idx as int);
        }
        if line_idx + 1 < count {
            ll - 1
        } else {
            ll
        }
    }

    /// The chars of the whole text, in order.
    pub fn chars(&self) -> (r: Vec<char>)
        ensures
            r@ == self@,
    {
        let s = self.as_string();
        let n = s.as_str().unicode_len();
        let mut r: Vec<char> = Vec::new();
        let mut i: usize = 0;
        while i < n
            invariant
                n == s@.len(),
                s@ == self@,
                i <= n,
                r@ == s@.subrange(0, i as int),
            decreases n - i,
        {
            r.push(s.as_str().get_char(i));
            proof {
                assert(r@ =~= s@.subrange(0, i + 1));
            }
            i = i + 1;
        }
        proof {
            assert(r@ =~= s@);
        }
        r
    }

    /// All lines, terminators included, top to bottom.
    pub fn lines(&self) -> (r: Vec<String>)
        ensures
            r@.len() == line_count(self@),
            forall|j: int| 0 <= j < r@.len() ==> r@[j]@ == line_text(self@, j),
    {
        let n = self.line_count();
        let mut r: Vec<String> = Vec::new();
        let mut i: usize = 0;
        while i < n
            invariant
                n == line_count(self@),
                i <= n,
                r@.len() == i,
                forall|j: int| 0 <= j < i ==> r@[j]@ == line_text(self@, j),
            decreases n - i,
        {
            r.push(self.line(i));
            i = i + 1;
        }
        r
    }

    /// Splices the chars of `text` in at `char_idx` and marks the buffer
    /// dirty.
    pub fn insert(&mut self, char_idx: usize, text: &str)
        requires
            char_idx <= old(self)@.len(),
            old(self)@.len() + text@.len() <= usize::MAX,
        ensures
            final(self)@ == old(self)@.subrange(0, char_idx as int) + text@ + old(self)@.subrange(
                char_idx as int,
                old(self)@.len() as int,
            ),
            final(self).dirty,
            final(self).path == old(self).path,
    {
        self.text.insert(char_idx, text);
        self.dirty = true;
    }

    /// Splices one char in at `char_idx` and marks the buffer dirty.
    pub fn insert_char(&mut self, char_idx: usize, ch: char)
        requires
            char_idx <= old(self)@.len(),
            old(self)@.len() + 1 <= usize::MAX,
        ensures
            final(self)@ == old(self)@.subrange(0, char_idx as int) + seq![ch]
                + old(self)@.subrange(char_idx as int, old(self)@.len() as int),
            final(self).dirty,
            final(self).path == old(self).path,
    {
        self.text.insert_char(char_idx, ch);
        self.dirty = true;
    }

    /// Removes `count` chars starting at `char_idx` and marks the buffer
    /// dirty.
    pub fn delete(&mut self, char_idx: usize, count: usize)
        requires
            char_idx + count <= old(self)@.len(),
        ensures
            final(self)@ == old(self)@.subrange(0, char_idx as int) + old(self)@.subrange(
                char_idx as int + count as int,
                old(self)@.len() as int,
            ),
            final(self).dirty,
            final(self).path == old(self).path,
    {
        let _len = self.len_chars();
        rope_remove(&mut self.text, char_idx, char_idx + count);
        self.dirty = true;
    }

    /// The whole text as a `String`, for persisting and for display.
    pub fn as_string(&self) -> (s: String)
        ensures
            s@ == self@,
    {
        rope_string(&self.text)
    }

    /// Marks the buffer as agreeing with its persisted state again, after
    /// a save.
    pub fn mark_clean(&mut self)
        ensures
            final(self)@ == old(self)@,
            !final(self).dirty,
            final(self).path == old(self).path,
    {
        self.dirty = false;
    }
}

} // verus!
