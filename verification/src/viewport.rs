use vstd::prelude::*;
use crate::cursor::Cursor;

verus! {

/// The window of buffer coordinates currently mapped onto the screen:
/// its top-left corner (`row_offset`, `col_offset`) and the terminal's
/// size in rows and columns.
pub struct Viewport {
    pub row_offset: usize,
    pub col_offset: usize,
    pub screen_rows: usize,
    pub screen_cols: usize,
}

impl Viewport {
    /// A terminal window has at least one row and one column; with zero
    /// of either, no offset could put the cursor on screen.
    pub open spec fn dims_wf(&self) -> bool {
        self.screen_rows >= 1 && self.screen_cols >= 1
    }

    /// The cursor lies inside the visible window.
    pub open spec fn contains(&self, c: Cursor) -> bool {
        self.row_offset <= c.row < self.row_offset + self.screen_rows
            && self.col_offset <= c.col < self.col_offset + self.screen_cols
    }

    /// Recompute the offsets so the cursor is visible: scroll up or left
    /// to a cursor before the window, down or right so a cursor past it
    /// sits on the last visible row or column.
    pub fn recompute(&mut self, c: Cursor)
        requires
            old(self).dims_wf(),
        ensures
            *final(self) == spec_scroll(*old(self), c),
            final(self).contains(c),
    {
        if c.row < self.row_offset {
            self.row_offset = c.row;
        } else if c.row - self.row_offset >= self.screen_rows {
            self.row_offset = c.row - self.screen_rows + 1;
        }
        if c.col < self.col_offset {
            self.col_offset = c.col;
        } else if c.col - self.col_offset >= self.screen_cols {
            self.col_offset = c.col - self.screen_cols + 1;
        }
    }
}

/// One scroll rule along one axis: `offset` is the first visible
/// coordinate, `size` the number of visible coordinates, `pos` the cursor.
pub open spec fn spec_scroll_axis(offset: int, pos: int, size: int) -> int {
    if pos < offset {
        pos
    } else if pos >= offset + size {
        pos - size + 1
    } else {
        offset
    }
}

/// The viewport after a recompute: both offsets adjusted to the cursor,
/// the dimensions untouched.
pub open spec fn spec_scroll(v: Viewport, c: Cursor) -> Viewport {
    Viewport {
        row_offset: spec_scroll_axis(v.row_offset as int, c.row as int, v.screen_rows as int) as usize,
        col_offset: spec_scroll_axis(v.col_offset as int, c.col as int, v.screen_cols as int) as usize,
        screen_rows: v.screen_rows,
        screen_cols: v.screen_cols,
    }
}

/// The viewport recompute is idempotent: with the cursor and the terminal
/// size unchanged, a second recompute changes neither offset.
pub proof fn lemma_scroll_idempotent(v: Viewport, c: Cursor)
    requires
        v.dims_wf(),
    ensures
        spec_scroll(spec_scroll(v, c), c) == spec_scroll(v, c),
{
}

} // verus!
