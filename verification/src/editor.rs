//! The editor: buffers, a cursor and a viewport, kept consistent.
//!
//! The cursor is an absolute char offset plus a remembered ("sticky")
//! column; the viewport is a window of rows with a vertical scroll offset.
//! Every motion keeps the cursor inside the buffer and its line inside the
//! viewport.
use vstd::prelude::*;

use crate::text_buffer::TextBuffer;
use crate::text_model::{
    lemma_line_start_at_end, lemma_line_start_mono, lemma_line_terminator, lemma_newlines_bounds,
    lemma_newlines_mono, lemma_pos_le_eol, lemma_pos_on_line, line_count, line_eol, line_max_col,
    line_of, line_start, line_text,
};

verus! {

/// The smaller of two integers.
pub open spec fn min_int(a: int, b: int) -> int {
    if a <= b {
        a
    } else {
        b
    }
}

/// `x` forced into `[lo, hi]`.
pub open spec fn clamp_int(x: int, lo: int, hi: int) -> int {
    if x < lo {
        lo
    } else if x > hi {
        hi
    } else {
        x
    }
}

/// A logical position in the active buffer: the absolute char offset, and
/// the column remembered from the last horizontal move, which vertical
/// moves try to restore.
pub struct Cursor {
    /// Absolute char offset into the active buffer, in `0 ..= len`.
    pub char_index: usize,
    /// Column of the last horizontal move; never changed by a vertical
    /// move, so that passing through a short line loses nothing.
    pub sticky_column: usize,
}

impl Cursor {
    /// A cursor at the very start of a buffer.
    pub fn new() -> (c: Cursor)
        ensures
            c.char_index == 0,
            c.sticky_column == 0,
    {
        Cursor { char_index: 0, sticky_column: 0 }
    }
}

/// The visible window into the active buffer: its size in screen cells and
/// the first visible buffer line.
pub struct Viewport {
    /// Number of visible text rows.
    pub rows: usize,
    /// Number of visible columns.
    pub cols: usize,
    /// Index of the first visible buffer line.
    pub scroll_offset: usize,
}

/// The scroll offset after bringing `line` into view with the least
/// possible scrolling: an offset that already shows the line is kept.
pub open spec fn scroll_after(vp: Viewport, line: int) -> int {
    if line < vp.scroll_offset {
        line
    } else if vp.rows > 0 && line >= vp.scroll_offset + vp.rows {
        line - vp.rows + 1
    } else {
        vp.scroll_offset as int
    }
}

impl Viewport {
    /// Whether buffer line `line` falls on one of the viewport's rows.
    pub open spec fn line_visible(self, line: int) -> bool {
        self.scroll_offset <= line < self.scroll_offset + self.rows
    }

    /// Screen row of buffer line `line`, clamped to `0` for lines above
    /// the window rather than underflowing.
    pub open spec fn spec_screen_row(self, line: int) -> int {
        if line >= self.scroll_offset {
            line - self.scroll_offset
        } else {
            0
        }
    }

    /// A viewport of the given size, scrolled to the top.
    pub fn new(rows: usize, cols: usize) -> (vp: Viewport)
        ensures
            vp.rows == rows,
            vp.cols == cols,
            vp.scroll_offset == 0,
    {
        Viewport { rows, cols, scroll_offset: 0 }
    }

    /// Takes a new size; the scroll offset is left alone (the editor
    /// corrects it afterwards).
    pub fn resize(&mut self, rows: usize, cols: usize)
        ensures
            final(self).rows == rows,
            final(self).cols == cols,
            final(self).scroll_offset == old(self).scroll_offset,
    {
        self.rows = rows;
        self.cols = cols;
    }

    /// Scrolls just far enough that `line` is visible (when there is at
    /// least one row); an offset that already shows it does not move.
    pub fn scroll_to(&mut self, line: usize)
        ensures
            final(self).rows == old(self).rows,
            final(self).cols == old(self).cols,
            final(self).scroll_offset == scroll_after(*old(self), line as int),
            final(self).rows > 0 ==> final(self).line_visible(line as int),
    {
        if line < self.scroll_offset {
            self.scroll_offset = line;
        } else if self.rows > 0 && line - self.scroll_offset >= self.rows {
            self.scroll_offset = line - (self.rows - 1);
        }
    }

    /// Screen row of buffer line `line`, clamped to `0` for lines above
    /// the window.
    pub fn screen_row(&self, line: usize) -> (r: usize)
        ensures
            r == self.spec_screen_row(line as int),
    {
        if line >= self.scroll_offset {
            line - self.scroll_offset
        } else {
            0
        }
    }
}

/// Cursor position after a vertical move by `dy` from position `i` with
/// remembered column `sticky`: the target line is the current line moved
/// by `dy` and clamped to the buffer, and the column is the remembered one,
/// cut back to the target line's last column so the cursor never lands past
/// its end of line.
pub open spec fn index_after_vertical(text: Seq<char>, i: int, sticky: int, dy: int) -> int {
    let target = clamp_int(line_of(text, i) + dy, 0, line_count(text) - 1);
    line_start(text, target) + min_int(sticky, line_max_col(text, target))
}

/// Cursor position after a horizontal move by `dx` from position `i`:
/// clamped below at the start of the buffer and above at the cursor's
/// line's end-of-line position, so that moving right past the last
/// character stops at the end of the line instead of crossing onto the
/// next one, while moving left past the line start continues into the
/// earlier lines, stopping only at the buffer's start.
pub open spec fn index_after_horizontal(text: Seq<char>, i: int, dx: int) -> int {
    clamp_int(i + dx, 0, line_eol(text, line_of(text, i)))
}

/// A rightward horizontal move never crosses into the next line: past the
/// last character it stops at the end of the cursor's line, not on the
/// next line's first character.
pub proof fn lemma_rightward_move_stays_on_line(text: Seq<char>, i: int, dx: int)
    requires
        0 <= i <= text.len(),
        dx >= 0,
    ensures
        line_of(text, index_after_horizontal(text, i, dx)) == line_of(text, i),
        index_after_horizontal(text, i, dx) <= line_eol(text, line_of(text, i)),
{
    lemma_pos_le_eol(text, i);
    lemma_pos_on_line(text, line_of(text, i), index_after_horizontal(text, i, dx));
}

/// The sticky column survives a vertical round trip: from a cursor that a
/// vertical move placed on line `l`, moving `d` lines down and `d` lines
/// back up returns the cursor to where it stood, however short the lines
/// passed through are — the remembered column is never lost to them.
pub proof fn lemma_vertical_round_trip(text: Seq<char>, l: int, s: int, d: int)
    requires
        0 <= l,
        0 < d,
        l + d < line_count(text),
        0 <= s,
    ensures
        ({
            let i0 = line_start(text, l) + min_int(s, line_max_col(text, l));
            let i1 = index_after_vertical(text, i0, s, d);
            index_after_vertical(text, i1, s, -d) == i0
        }),
{
    let i0 = line_start(text, l) + min_int(s, line_max_col(text, l));
    let i1 = index_after_vertical(text, i0, s, d);
    lemma_line_terminator(text, l);
    lemma_pos_on_line(text, l, i0);
    lemma_line_terminator(text, l + d);
    lemma_pos_on_line(text, l + d, i1);
}

/// A vertical move whose target line clamps back to the cursor's own line
/// (at the top or bottom of the buffer) leaves a vertically-placed cursor
/// exactly where it stood.
pub proof fn lemma_vertical_move_clamped_at_edge(text: Seq<char>, l: int, s: int, dy: int)
    requires
        0 <= l < line_count(text),
        0 <= s,
        clamp_int(l + dy, 0, line_count(text) - 1) == l,
    ensures
        ({
            let i = line_start(text, l) + min_int(s, line_max_col(text, l));
            index_after_vertical(text, i, s, dy) == i
        }),
{
    let i = line_start(text, l) + min_int(s, line_max_col(text, l));
    lemma_line_terminator(text, l);
    lemma_pos_on_line(text, l, i);
}

/// `base + delta` forced into `[lo, hi]`, computed without overflow.
fn add_signed_clamped(base: usize, delta: isize, lo: usize, hi: usize) -> (r: usize)
    requires
        lo <= base <= hi,
    ensures
        r == clamp_int(base + delta, lo as int, hi as int),
{
    if delta >= 0 {
        let d = delta as usize;
        if d > hi - base {
            hi
        } else {
            base + d
        }
    } else {
        let d = (-(delta + 1)) as usize + 1;
        if d > base - lo {
            lo
        } else {
            base - d
        }
    }
}

/// The editing state: a collection of buffers, the index of the active
/// one, the cursor, the viewport, and whether the screen needs redrawing.
pub struct Editor {
    /// True when the screen content no longer matches the buffer.
    pub dirty: bool,
    /// Index of the active buffer.
    pub current_buffer: usize,
    /// The open buffers; never empty.
    pub buffers: Vec<TextBuffer>,
    /// The cursor into the active buffer.
    pub cursor: Cursor,
    /// The visible window into the active buffer.
    pub viewport: Viewport,
}

/// The editor state after `move_cursor(dx, dy)`: the cursor as the two
/// motion functions place it (the vertical part first), the remembered
/// column re-recorded whenever there is a horizontal part, and the
/// viewport scrolled as little as needed to show the cursor's line.
pub open spec fn editor_after_move(e: Editor, dx: int, dy: int) -> Editor {
    let text = e.buf();
    let i0 = e.cursor.char_index as int;
    let s0 = e.cursor.sticky_column as int;
    let i1 = if dy != 0 {
        index_after_vertical(text, i0, s0, dy)
    } else {
        i0
    };
    let i2 = if dx != 0 {
        index_after_horizontal(text, i1, dx)
    } else {
        i1
    };
    let s2 = if dx != 0 {
        i2 - line_start(text, line_of(text, i2))
    } else {
        s0
    };
    Editor {
        dirty: e.dirty,
        current_buffer: e.current_buffer,
        buffers: e.buffers,
        cursor: Cursor { char_index: i2 as usize, sticky_column: s2 as usize },
        viewport: Viewport {
            rows: e.viewport.rows,
            cols: e.viewport.cols,
            scroll_offset: scroll_after(e.viewport, line_of(text, i2)) as usize,
        },
    }
}

/// How inserting `c` at the cursor relates the editor before and after:
/// the char is spliced in at the cursor, the cursor advances past it, the
/// remembered column is left alone, buffer and screen are marked dirty,
/// and the viewport scrolls as little as needed to show the cursor's
/// line.  Only the active buffer changes.
pub open spec fn inserted_char(pre: Editor, post: Editor, c: char) -> bool {
    let i = pre.cursor.char_index as int;
    &&& post.buf() == pre.buf().subrange(0, i) + seq![c] + pre.buf().subrange(
        i,
        pre.buf().len() as int,
    )
    &&& post.cursor.char_index == pre.cursor.char_index + 1
    &&& post.cursor.sticky_column == pre.cursor.sticky_column
    &&& post.dirty
    &&& post.current_buffer == pre.current_buffer
    &&& post.buffers[post.current_buffer as int].dirty
    &&& post.buffers[post.current_buffer as int].path == pre.buffers[pre.current_buffer as int].path
    &&& post.buffers@ == pre.buffers@.update(
        pre.current_buffer as int,
        post.buffers@[pre.current_buffer as int],
    )
    &&& post.viewport.rows == pre.viewport.rows
    &&& post.viewport.cols == pre.viewport.cols
    &&& post.viewport.scroll_offset == scroll_after(
        pre.viewport,
        line_of(post.buf(), post.cursor.char_index as int),
    )
}

impl Editor {
    /// The text of the active buffer.
    pub open spec fn buf(self) -> Seq<char> {
        self.buffers[self.current_buffer as int]@
    }

    /// The line the cursor is on.
    pub open spec fn cursor_line(self) -> int {
        line_of(self.buf(), self.cursor.char_index as int)
    }

    /// Well-formedness: there is an active buffer, the cursor offset is
    /// inside it, and its line is visible whenever the viewport has rows.
    /// Every operation of the editor preserves this.
    pub open spec fn wf(self) -> bool {
        &&& self.buffers.len() > 0
        &&& self.current_buffer < self.buffers.len()
        &&& self.cursor.char_index <= self.buf().len()
        &&& (self.viewport.rows > 0 ==> self.viewport.line_visible(self.cursor_line()))
    }

    /// An editor over one empty buffer.
    pub fn new(rows: usize, cols: usize) -> (e: Editor)
        ensures
            e.wf(),
            e.buf() == Seq::<char>::empty(),
            e.buffers.len() == 1,
            e.cursor.char_index == 0,
            e.cursor.sticky_column == 0,
            e.viewport.rows == rows,
            e.viewport.cols == cols,
            e.viewport.scroll_offset == 0,
            e.dirty,
    {
        let mut buffers: Vec<TextBuffer> = Vec::new();
        buffers.push(TextBuffer::new());
        Editor {
            dirty: true,
            current_buffer: 0,
            buffers,
            cursor: Cursor::new(),
            viewport: Viewport::new(rows, cols),
        }
    }

    /// An editor over one buffer seeded with `text` (the surrounding
    /// application reads files and passes their content here).
    pub fn from_text(rows: usize, cols: usize, text: &str, path: Option<String>) -> (e: Editor)
        ensures
            e.wf(),
            e.buf() == text@,
            e.buffers.len() == 1,
            e.buffers[0].path == path,
            e.cursor.char_index == 0,
            e.cursor.sticky_column == 0,
            e.viewport.rows == rows,
            e.viewport.cols == cols,
            e.viewport.scroll_offset == 0,
            e.dirty,
    {
        let mut buffers: Vec<TextBuffer> = Vec::new();
        buffers.push(TextBuffer::from_text(text, path));
        Editor {
            dirty: true,
            current_buffer: 0,
            buffers,
            cursor: Cursor::new(),
            viewport: Viewport::new(rows, cols),
        }
    }

    /// The active buffer.
    pub fn current_buffer(&self) -> (b: &TextBuffer)
        requires
            self.wf(),
        ensures
            *b == self.buffers[self.current_buffer as int],
    {
        &self.buffers[self.current_buffer]
    }

    /// Whether the screen needs redrawing.
    pub fn is_dirty(&self) -> (r: bool)
        ensures
            r == self.dirty,
    {
        self.dirty
    }

    /// Records that the screen has been redrawn.
    pub fn clean(&mut self)
        ensures
            *final(self) == (Editor { dirty: false, ..*old(self) }),
    {
        self.dirty = false;
    }

    /// The visible line at screen row `line_idx` (so the buffer line at
    /// the scroll offset plus `line_idx`), terminator included, or `None`
    /// when the buffer ends above that row.
    pub fn get_line(&self, line_idx: usize) -> (r: Option<String>)
        requires
            self.wf(),
        ensures
            match r {
                Some(s) => self.viewport.scroll_offset + line_idx < line_count(self.buf()) && s@
                    == line_text(self.buf(), self.viewport.scroll_offset + line_idx),
                None => self.viewport.scroll_offset + line_idx >= line_count(self.buf()),
            },
    {
        let b = &self.buffers[self.current_buffer];
        // the line count fits a machine word, so a row sum past it means "no such line"
        let _n = b.line_count();
        if line_idx <= usize::MAX - self.viewport.scroll_offset {
            b.get_line(self.viewport.scroll_offset + line_idx)
        } else {
            None
        }
    }

    /// The lines on the viewport's rows, top to bottom: up to `rows` lines
    /// starting at the scroll offset.
    pub fn visible_lines(&self) -> (r: Vec<String>)
        requires
            self.wf(),
        ensures
            r@.len() == min_int(
                self.viewport.rows as int,
                if self.viewport.scroll_offset as int <= line_count(self.buf()) {
                    line_count(self.buf()) - self.viewport.scroll_offset
                } else {
                    0
                },
            ),
            forall|j: int|
                0 <= j < r@.len() ==> r@[j]@ == line_text(
                    self.buf(),
                    self.viewport.scroll_offset + j,
                ),
    {
        let b = &self.buffers[self.current_buffer];
        let n = b.line_count();
        let avail = if self.viewport.scroll_offset < n {
            n - self.viewport.scroll_offset
        } else {
            0
        };
        let take = if self.viewport.rows < avail {
            self.viewport.rows
        } else {
            avail
        };
        let mut out: Vec<String> = Vec::new();
        let mut i: usize = 0;
        while i < take
            invariant
                self.wf(),
                take == min_int(
                    self.viewport.rows as int,
                    if self.viewport.scroll_offset as int <= line_count(self.buf()) {
                        line_count(self.buf()) - self.viewport.scroll_offset
                    } else {
                        0
                    },
                ),
                n == line_count(self.buf()),
                b@ == self.buf(),
                i <= take,
                out@.len() == i,
                forall|j: int|
                    0 <= j < i ==> out@[j]@ == line_text(
                        self.buf(),
                        self.viewport.scroll_offset + j,
                    ),
            decreases take - i,
        {
            out.push(b.line(self.viewport.scroll_offset + i));
            i = i + 1;
        }
        out
    }

    /// Leaves the editor as it is; the application calls it once per
    /// event, after input handling.
    pub fn update(&mut self, _context: &crate::AppContext)
        ensures
            *final(self) == *old(self),
    {
    }

    /// Takes a new viewport size and scrolls as little as needed to keep
    /// the cursor's line visible.  The cursor itself does not move, and
    /// the screen is marked for a redraw.
    pub fn set_size(&mut self, rows: usize, cols: usize)
        requires
            old(self).wf(),
        ensures
            final(self).wf(),
            final(self).cursor == old(self).cursor,
            final(self).buffers == old(self).buffers,
            final(self).current_buffer == old(self).current_buffer,
            final(self).dirty,
            final(self).viewport.rows == rows,
            final(self).viewport.cols == cols,
            final(self).viewport.scroll_offset == scroll_after(
                (Viewport { rows, cols, scroll_offset: old(self).viewport.scroll_offset }),
                old(self).cursor_line(),
            ),
    {
        self.viewport.resize(rows, cols);
        self.dirty = true;
        let line = {
            let b = &self.buffers[self.current_buffer];
            b.char_to_line(self.cursor.char_index)
        };
        self.viewport.scroll_to(line);
    }

    /// The buffer line the cursor is on.
    pub fn get_cursor_line_idx(&self) -> (line: usize)
        requires
            self.wf(),
        ensures
            line == self.cursor_line(),
            line < line_count(self.buf()),
    {
        let b = &self.buffers[self.current_buffer];
        b.char_to_line(self.cursor.char_index)
    }

    /// The cursor's absolute char offset.
    pub fn cursor_idx(&self) -> (i: usize)
        ensures
            i == self.cursor.char_index,
    {
        self.cursor.char_index
    }

    /// The cursor's screen position as `(column, row)`: the column within
    /// its line, and its line's viewport row, clamped to `0` rather than
    /// underflowing when the line has scrolled above the window.
    pub fn get_cursor_pos(&self) -> (pos: (usize, usize))
        requires
            self.wf(),
        ensures
            pos.0 == self.cursor.char_index - line_start(self.buf(), self.cursor_line()),
            pos.1 == self.viewport.spec_screen_row(self.cursor_line()),
    {
        let b = &self.buffers[self.current_buffer];
        let line = b.char_to_line(self.cursor.char_index);
        proof {
            lemma_pos_le_eol(self.buf(), self.cursor.char_index as int);
        }
        let start = b.line_to_char(line);
        (self.cursor.char_index - start, self.viewport.screen_row(line))
    }

    /// Moves the cursor by `dx` chars and `dy` lines.  A vertical move
    /// goes to the remembered column, cut back to the target line's last
    /// column, and leaves the remembered column alone; a horizontal move
    /// stops rightward at its line's end, continues leftward into earlier
    /// lines, and re-records the remembered column from where it lands.
    /// A combined move applies the vertical part first.  The viewport
    /// scrolls as little as needed to keep the cursor's line visible.
    pub fn move_cursor(&mut self, dx: isize, dy: isize)
        requires
            old(self).wf(),
        ensures
            final(self).wf(),
            *final(self) == editor_after_move(*old(self), dx as int, dy as int),
            0 <= final(self).cursor.char_index <= final(self).buf().len(),
    {
        let b = &self.buffers[self.current_buffer];
        let ghost text = self.buf();
        // the char count fits a machine word; the position sums below stay under it
        let _len = b.len_chars();
        if dy != 0 {
            let line = b.char_to_line(self.cursor.char_index);
            let nlines = b.line_count();
            let target = add_signed_clamped(line, dy, 0, nlines - 1);
            let maxc = b.line_max_col(target);
            let col = if self.cursor.sticky_column < maxc {
                self.cursor.sticky_column
            } else {
                maxc
            };
            proof {
                lemma_line_terminator(text, target as int);
                lemma_line_start_mono(text, target as int + 1, line_count(text));
                lemma_line_start_at_end(text);
            }
            let start = b.line_to_char(target);
            self.cursor.char_index = start + col;
            proof {
                lemma_pos_le_eol(text, self.cursor.char_index as int);
            }
        }
        if dx != 0 {
            proof {
                lemma_pos_le_eol(text, self.cursor.char_index as int);
            }
            let line = b.char_to_line(self.cursor.char_index);
            let start = b.line_to_char(line);
            let maxc = b.line_max_col(line);
            proof {
                lemma_line_terminator(text, line as int);
                lemma_line_start_mono(text, line as int + 1, line_count(text));
                lemma_line_start_at_end(text);
            }
            let idx = add_signed_clamped(self.cursor.char_index, dx, 0, start + maxc);
            self.cursor.char_index = idx;
            proof {
                lemma_pos_le_eol(text, idx as int);
            }
            let new_line = b.char_to_line(idx);
            let new_start = b.line_to_char(new_line);
            self.cursor.sticky_column = idx - new_start;
        }
        let line = {
            let b = &self.buffers[self.current_buffer];
            b.char_to_line(self.cursor.char_index)
        };
        self.viewport.scroll_to(line);
    }

    /// Opens one more buffer at the end of the list; the active buffer
    /// and the cursor stay as they are.
    pub fn add_buffer(&mut self, buffer: TextBuffer)
        requires
            old(self).wf(),
        ensures
            final(self).wf(),
            final(self).buffers@ == old(self).buffers@.push(buffer),
            final(self).current_buffer == old(self).current_buffer,
            final(self).cursor == old(self).cursor,
            final(self).viewport == old(self).viewport,
            final(self).dirty == old(self).dirty,
    {
        self.buffers.push(buffer);
    }

    /// Makes buffer `idx` the active one.  The cursor's offset is
    /// re-validated against the new buffer: it is clamped to its length,
    /// and the viewport scrolls as little as needed to show its line.
    pub fn switch_buffer(&mut self, idx: usize)
        requires
            old(self).wf(),
            idx < old(self).buffers.len(),
        ensures
            final(self).wf(),
            final(self).current_buffer == idx,
            final(self).buffers == old(self).buffers,
            final(self).cursor.char_index == min_int(
                old(self).cursor.char_index as int,
                old(self).buffers[idx as int]@.len() as int,
            ),
            final(self).cursor.sticky_column == old(self).cursor.sticky_column,
            final(self).dirty,
            final(self).viewport.rows == old(self).viewport.rows,
            final(self).viewport.cols == old(self).viewport.cols,
            final(self).viewport.scroll_offset == scroll_after(
                old(self).viewport,
                final(self).cursor_line(),
            ),
    {
        self.current_buffer = idx;
        let len = self.buffers[idx].len_chars();
        if self.cursor.char_index > len {
            self.cursor.char_index = len;
        }
        self.dirty = true;
        let line = {
            let b = &self.buffers[self.current_buffer];
            b.char_to_line(self.cursor.char_index)
        };
        self.viewport.scroll_to(line);
    }

    /// Inserts `c` at the cursor and advances the cursor past it, marking
    /// buffer and screen dirty and keeping the cursor's line visible.
    /// The remembered column is left alone, as only a horizontal move
    /// records it.
    pub fn insert_char(&mut self, c: char)
        requires
            old(self).wf(),
            old(self).buf().len() + 1 <= usize::MAX,
        ensures
            final(self).wf(),
            inserted_char(*old(self), *final(self), c),
    {
        let cb = self.current_buffer;
        let b = &mut self.buffers[cb];
        b.insert_char(self.cursor.char_index, c);
        self.cursor.char_index = self.cursor.char_index + 1;
        self.dirty = true;
        proof {
            lemma_newlines_bounds(self.buf(), self.cursor.char_index as int);
            lemma_newlines_mono(self.buf(), self.cursor.char_index as int, self.buf().len() as int);
        }
        let line = {
            let b = &self.buffers[self.current_buffer];
            b.char_to_line(self.cursor.char_index)
        };
        self.viewport.scroll_to(line);
    }
}

} // verus!
