use vstd::prelude::*;
use crate::keys::ArrowDirection;
use crate::spec_clamp;
use crate::textbuf::TextBuffer;

verus! {

/// A clamping range for one coordinate: assignments saturate into
/// `[start, end]` when `allow_end` holds (a column may sit just past the
/// last character), and into `[start, end - 1]` otherwise (a row must name
/// an existing line).
pub struct Bound {
    pub start: usize,
    pub end: usize,
    pub allow_end: bool,
}

impl Bound {
    /// A bound that excludes its end must have room below it.
    pub open spec fn wf(&self) -> bool {
        self.start <= self.end && (self.allow_end || self.start < self.end)
    }

    /// The largest value the bound admits.
    pub open spec fn spec_max(&self) -> int {
        if self.allow_end {
            self.end as int
        } else {
            self.end - 1
        }
    }

    pub open spec fn spec_clamp_val(&self, x: int) -> int {
        spec_clamp(x, self.start as int, self.spec_max())
    }

    /// Saturate `x` into the bound.
    pub fn clamp(&self, x: usize) -> (r: usize)
        requires
            self.wf(),
        ensures
            r == self.spec_clamp_val(x as int),
    {
        let hi = if self.allow_end {
            self.end
        } else {
            self.end - 1
        };
        crate::clamp_usize(x, self.start, hi)
    }
}

/// A 2D position in the buffer: `row` names a line, `col` a code-point
/// offset in it, where `col == line length` means "after the last
/// character".
#[derive(Debug, PartialEq, Eq, Structural, Clone, Copy)]
pub struct Cursor {
    pub row: usize,
    pub col: usize,
}

/// The cursor invariant against a buffer shape: the row names an existing
/// line and the column is at most that line's length.
pub open spec fn cursor_valid(lines: Seq<Seq<char>>, c: Cursor) -> bool {
    c.row < lines.len() && c.col <= lines[c.row as int].len()
}

/// A buffer shape that a machine can hold: the line count and every line
/// length fit in `usize`.  Every `TextBuffer` view satisfies this.
pub open spec fn lines_fit(lines: Seq<Seq<char>>) -> bool {
    lines.len() <= usize::MAX && forall|i: int|
        0 <= i < lines.len() ==> #[trigger] lines[i].len() <= usize::MAX
}

/// One `left` move: back one column, or to the end of the previous line.
pub open spec fn spec_move_left(lines: Seq<Seq<char>>, c: Cursor) -> Cursor {
    if c.col > 0 {
        Cursor { row: c.row, col: (c.col - 1) as usize }
    } else if c.row > 0 {
        Cursor { row: (c.row - 1) as usize, col: lines[c.row - 1].len() as usize }
    } else {
        c
    }
}

/// One `right` move: forward one column, or to the start of the next line.
pub open spec fn spec_move_right(lines: Seq<Seq<char>>, c: Cursor) -> Cursor {
    if c.col < lines[c.row as int].len() {
        Cursor { row: c.row, col: (c.col + 1) as usize }
    } else if c.row + 1 < lines.len() {
        Cursor { row: (c.row + 1) as usize, col: 0 }
    } else {
        c
    }
}

/// One `up` move: the row above, with the column re-clamped to that
/// line's length.
pub open spec fn spec_move_up(lines: Seq<Seq<char>>, c: Cursor) -> Cursor {
    if c.row > 0 {
        let dest = lines[c.row - 1].len();
        Cursor {
            row: (c.row - 1) as usize,
            col: if c.col > dest { dest as usize } else { c.col },
        }
    } else {
        c
    }
}

/// One `down` move: the row below (clamped to the last line), with the
/// column re-clamped to that line's length.
pub open spec fn spec_move_down(lines: Seq<Seq<char>>, c: Cursor) -> Cursor {
    if c.row + 1 < lines.len() {
        let dest = lines[c.row + 1].len();
        Cursor {
            row: (c.row + 1) as usize,
            col: if c.col > dest { dest as usize } else { c.col },
        }
    } else {
        c
    }
}

pub open spec fn spec_move(lines: Seq<Seq<char>>, c: Cursor, dir: ArrowDirection) -> Cursor {
    match dir {
        ArrowDirection::Up => spec_move_up(lines, c),
        ArrowDirection::Down => spec_move_down(lines, c),
        ArrowDirection::Left => spec_move_left(lines, c),
        ArrowDirection::Right => spec_move_right(lines, c),
    }
}

/// A whole sequence of arrow moves, applied left to right.
pub open spec fn spec_moves(lines: Seq<Seq<char>>, c: Cursor, dirs: Seq<ArrowDirection>) -> Cursor
    decreases dirs.len(),
{
    if dirs.len() == 0 {
        c
    } else {
        spec_moves(lines, spec_move(lines, c, dirs[0]), dirs.drop_first())
    }
}

/// One arrow move keeps the cursor valid: the row stays within
/// `[0, line_count - 1]` and the column within `[0, line_length(row)]`.
pub proof fn lemma_move_preserves_valid(lines: Seq<Seq<char>>, c: Cursor, dir: ArrowDirection)
    requires
        lines_fit(lines),
        cursor_valid(lines, c),
    ensures
        cursor_valid(lines, spec_move(lines, c, dir)),
{
}

/// For every sequence of arrow moves (`left`, `right`, `up`, `down`, in any
/// order), the cursor stays valid: its row stays within
/// `[0, line_count - 1]`, and its column stays within
/// `[0, line_length(row)]` of whatever row it lands on — in particular the
/// column is re-clamped whenever a vertical move lands on a shorter line.
pub proof fn lemma_moves_preserve_valid(
    lines: Seq<Seq<char>>,
    c: Cursor,
    dirs: Seq<ArrowDirection>,
)
    requires
        lines_fit(lines),
        cursor_valid(lines, c),
    ensures
        cursor_valid(lines, spec_moves(lines, c, dirs)),
    decreases dirs.len(),
{
    if dirs.len() > 0 {
        lemma_move_preserves_valid(lines, c, dirs[0]);
        lemma_moves_preserve_valid(lines, spec_move(lines, c, dirs[0]), dirs.drop_first());
    }
}

impl Cursor {
    pub fn new() -> (r: Cursor)
        ensures
            r == (Cursor { row: 0, col: 0 }),
    {
        Cursor { row: 0, col: 0 }
    }

    /// Set the column, saturated into the given bound.
    pub fn set_column(&mut self, x: usize, b: &Bound)
        requires
            b.wf(),
        ensures
            final(self).col == b.spec_clamp_val(x as int),
            final(self).row == old(self).row,
    {
        self.col = b.clamp(x);
    }

    /// Set the row, saturated into the given bound.
    pub fn set_row(&mut self, y: usize, b: &Bound)
        requires
            b.wf(),
        ensures
            final(self).row == b.spec_clamp_val(y as int),
            final(self).col == old(self).col,
    {
        self.row = b.clamp(y);
    }

    /// Apply one arrow move against the buffer's current shape.
    pub fn arrow_move(&mut self, dir: ArrowDirection, buf: &TextBuffer)
        requires
            cursor_valid(buf@, *old(self)),
        ensures
            *final(self) == spec_move(buf@, *old(self), dir),
            cursor_valid(buf@, *final(self)),
    {
        match dir {
            ArrowDirection::Up => {
                if self.row > 0 {
                    self.row = self.row - 1;
                    let dest = buf.line_length(self.row);
                    if self.col > dest {
                        self.col = dest;
                    }
                }
            },
            ArrowDirection::Down => {
                let n = buf.line_count();
                if self.row < n - 1 {
                    self.row = self.row + 1;
                    let dest = buf.line_length(self.row);
                    if self.col > dest {
                        self.col = dest;
                    }
                }
            },
            ArrowDirection::Left => {
                if self.col > 0 {
                    self.col = self.col - 1;
                } else if self.row > 0 {
                    self.row = self.row - 1;
                    self.col = buf.line_length(self.row);
                }
            },
            ArrowDirection::Right => {
                if self.col < buf.line_length(self.row) {
                    self.col = self.col + 1;
                } else {
                    let n = buf.line_count();
                    if self.row < n - 1 {
                        self.row = self.row + 1;
                        self.col = 0;
                    }
                }
            },
        }
    }

    /// Jump to the start of the current line.
    pub fn home(&mut self)
        ensures
            final(self).col == 0,
            final(self).row == old(self).row,
    {
        self.col = 0;
    }

    /// Jump past the last character of the current line.
    pub fn end_of_line(&mut self, buf: &TextBuffer)
        requires
            old(self).row < buf@.len(),
        ensures
            final(self).col == buf@[old(self).row as int].len(),
            final(self).row == old(self).row,
    {
        self.col = buf.line_length(self.row);
    }
}

} // verus!
