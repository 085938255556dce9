use vstd::prelude::*;
use crate::cursor::{cursor_valid, spec_move, spec_move_left, Cursor};
use crate::keys::{ArrowDirection, Key};
use crate::term::{spec_term_sequence, Buffer, Color, ColorPos, Erase, TCC};
use crate::textbuf::{spec_load, TextBuffer};
use crate::viewport::{spec_scroll, Viewport};

verus! {

/// What the session loop must do after a key was handled: keep going,
/// persist the buffer, or shut down.
#[derive(Debug, PartialEq, Eq, Structural, Clone, Copy)]
pub enum EditorAction {
    Continue,
    Save,
    Quit,
}

/// `n` repeated arrow moves in one direction, one single step at a time,
/// so the column re-clamps on every intermediate line.
pub open spec fn spec_moves_n(
    lines: Seq<Seq<char>>,
    c: Cursor,
    dir: ArrowDirection,
    n: nat,
) -> Cursor
    decreases n,
{
    if n == 0 {
        c
    } else {
        spec_moves_n(lines, spec_move(lines, c, dir), dir, (n - 1) as nat)
    }
}

/// Stepping `n` times in one direction is the same as applying the
/// constant sequence of `n` moves in that direction.
pub proof fn lemma_moves_n_eq_moves(lines: Seq<Seq<char>>, c: Cursor, dir: ArrowDirection, n: nat)
    ensures
        spec_moves_n(lines, c, dir, n) == crate::cursor::spec_moves(
            lines,
            c,
            Seq::new(n, |i: int| dir),
        ),
    decreases n,
{
    let dirs = Seq::new(n, |i: int| dir);
    if n > 0 {
        assert(dirs.drop_first() =~= Seq::new((n - 1) as nat, |i: int| dir));
        lemma_moves_n_eq_moves(lines, spec_move(lines, c, dir), dir, (n - 1) as nat);
    }
}

/// The welcome banner: `=` padding, a space, the greeting in bright cyan,
/// a space, `=` padding, centered for a screen `sc` columns wide.
pub open spec fn spec_header(sc: int) -> Seq<char> {
    let pad = if sc >= 16 {
        (sc - 16) / 2
    } else {
        0
    };
    Seq::new(pad as nat, |i: int| '=') + seq![' '] + spec_term_sequence(
        TCC::Pen(ColorPos::Fg(Color::BrightCyan)),
    ) + ("Welcome to Edi")@ + spec_term_sequence(TCC::Pen(ColorPos::Reset)) + seq![' ']
        + Seq::new(pad as nat, |i: int| '=')
}

/// A buffer that has never held text: one empty line.  Only such a buffer
/// shows the welcome banner.
pub open spec fn spec_pristine(lines: Seq<Seq<char>>) -> bool {
    lines.len() == 1 && lines[0].len() == 0
}

/// The window `[col_offset, col_offset + screen_cols)` of one line,
/// clipped to the line's end.
pub open spec fn spec_row_slice(line: Seq<char>, co: int, sc: int) -> Seq<char> {
    let start = if co < line.len() {
        co
    } else {
        line.len() as int
    };
    let end = if co + sc < line.len() {
        co + sc
    } else {
        line.len() as int
    };
    line.subrange(start, end)
}

/// What one screen row shows: the visible slice of its buffer line, or the
/// banner on a pristine buffer at a third of the screen height, or a `~`
/// filler past the end of the document — always followed by an
/// erase-to-end-of-line, and by a line break on every row but the last.
pub open spec fn spec_row_chunk(lines: Seq<Seq<char>>, v: Viewport, index: int) -> Seq<char> {
    let content = if v.row_offset + index < lines.len() {
        spec_row_slice(lines[v.row_offset + index], v.col_offset as int, v.screen_cols as int)
    } else if spec_pristine(lines) && index == v.screen_rows as int / 3 {
        spec_header(v.screen_cols as int)
    } else {
        seq!['~']
    };
    content + spec_term_sequence(TCC::EraseLine(Erase::FromCursor)) + (if index
        < v.screen_rows - 1 {
        seq!['\r', '\n']
    } else {
        Seq::<char>::empty()
    })
}

/// The first `n` screen rows, concatenated.
pub open spec fn spec_draw_upto(lines: Seq<Seq<char>>, v: Viewport, n: int) -> Seq<char>
    decreases n,
{
    if n <= 0 {
        Seq::<char>::empty()
    } else {
        spec_draw_upto(lines, v, n - 1) + spec_row_chunk(lines, v, n - 1)
    }
}

/// Everything one render cycle draws: all `screen_rows` rows.
pub open spec fn spec_draw_rows(lines: Seq<Seq<char>>, v: Viewport) -> Seq<char> {
    spec_draw_upto(lines, v, v.screen_rows as int)
}

/// The whole output of one refresh, with `v` the viewport after its
/// scroll recompute: hide the cursor, park it at the top-left, draw every
/// row, put it on its 1-based screen position, show it.
pub open spec fn spec_refresh(lines: Seq<Seq<char>>, v: Viewport, c: Cursor) -> Seq<char> {
    spec_term_sequence(TCC::Hide) + spec_term_sequence(TCC::PosC(1, 1)) + spec_draw_rows(lines, v)
        + spec_term_sequence(
        TCC::PosC((c.row - v.row_offset + 1) as usize, (c.col - v.col_offset + 1) as usize),
    ) + spec_term_sequence(TCC::Show)
}

/// The action a key demands of the session loop.
pub open spec fn spec_key_action(key: Key) -> EditorAction {
    match key {
        Key::Ctrl(k) => if k == 'Q' {
            EditorAction::Quit
        } else if k == 'S' {
            EditorAction::Save
        } else {
            EditorAction::Continue
        },
        _ => EditorAction::Continue,
    }
}

/// The buffer after deleting the code point before the cursor: shorten the
/// line, or join it onto the previous one at a line start, or nothing at
/// the very start of the document.
pub open spec fn spec_backspace_text(lines: Seq<Seq<char>>, c: Cursor) -> Seq<Seq<char>> {
    if c.col > 0 {
        lines.update(c.row as int, lines[c.row as int].remove(c.col - 1))
    } else if c.row > 0 {
        lines.update(c.row - 1, lines[c.row - 1] + lines[c.row as int]).remove(c.row as int)
    } else {
        lines
    }
}

/// Where the cursor lands after a backspace.
pub open spec fn spec_backspace_cursor(lines: Seq<Seq<char>>, c: Cursor) -> Cursor {
    if c.col > 0 {
        Cursor { row: c.row, col: (c.col - 1) as usize }
    } else if c.row > 0 {
        Cursor { row: (c.row - 1) as usize, col: lines[c.row - 1].len() as usize }
    } else {
        c
    }
}

/// The buffer after inserting one code point at the cursor.
pub open spec fn spec_insert_text(lines: Seq<Seq<char>>, c: Cursor, ch: char) -> Seq<Seq<char>> {
    lines.update(c.row as int, lines[c.row as int].insert(c.col as int, ch))
}

/// The buffer after splitting the cursor's line at the cursor's column.
pub open spec fn spec_split_text(lines: Seq<Seq<char>>, c: Cursor) -> Seq<Seq<char>> {
    lines.update(c.row as int, lines[c.row as int].take(c.col as int)).insert(
        c.row + 1,
        lines[c.row as int].skip(c.col as int),
    )
}

/// Splitting a line at the cursor (Enter) and immediately deleting at the
/// start of the new line (Backspace) is a round trip: the document gets
/// back its original lines and the cursor returns to where the split was
/// made.
pub proof fn lemma_split_backspace_roundtrip(lines: Seq<Seq<char>>, c: Cursor)
    requires
        crate::cursor::lines_fit(lines),
        cursor_valid(lines, c),
    ensures
        spec_backspace_text(
            spec_split_text(lines, c),
            Cursor { row: (c.row + 1) as usize, col: 0 },
        ) =~~= lines,
        spec_backspace_cursor(
            spec_split_text(lines, c),
            Cursor { row: (c.row + 1) as usize, col: 0 },
        ) == c,
{
    let split = spec_split_text(lines, c);
    let boundary = Cursor { row: (c.row + 1) as usize, col: 0 };
    assert(split[c.row as int] + split[c.row + 1] =~= lines[c.row as int]);
    assert(spec_backspace_text(split, boundary) =~~= lines);
    assert(split[c.row as int].len() == c.col);
}

/// The text after one key: Enter splits the line, backspace (byte 0x7f)
/// deletes before the cursor, tab (Ctrl-I) and printable characters insert
/// at the cursor; every other key leaves the text alone.
pub open spec fn spec_key_text(lines: Seq<Seq<char>>, c: Cursor, key: Key) -> Seq<Seq<char>> {
    match key {
        Key::NewLine => spec_split_text(lines, c),
        Key::Char(ch) => if ch == '\u{7f}' {
            spec_backspace_text(lines, c)
        } else {
            spec_insert_text(lines, c, ch)
        },
        Key::Ctrl(k) => if k == 'I' {
            spec_insert_text(lines, c, '\t')
        } else {
            lines
        },
        _ => lines,
    }
}

/// The cursor after one key, against the text as it was before the key:
/// arrows step, paging is `screen_rows` single steps, Home and End jump
/// within the line, Delete steps left, Escape jumps to the document start,
/// and the editing keys land where the edit puts them.
pub open spec fn spec_key_cursor(lines: Seq<Seq<char>>, c: Cursor, sr: usize, key: Key) -> Cursor {
    match key {
        Key::Esc => Cursor { row: 0, col: 0 },
        Key::Arrow(dir) => spec_move(lines, c, dir),
        Key::PageUp => spec_moves_n(lines, c, ArrowDirection::Up, sr as nat),
        Key::PageDown => spec_moves_n(lines, c, ArrowDirection::Down, sr as nat),
        Key::Home => Cursor { row: c.row, col: 0 },
        Key::End => Cursor { row: c.row, col: lines[c.row as int].len() as usize },
        Key::Delete => spec_move_left(lines, c),
        Key::NewLine => Cursor { row: (c.row + 1) as usize, col: 0 },
        Key::Char(ch) => if ch == '\u{7f}' {
            spec_backspace_cursor(lines, c)
        } else {
            Cursor { row: c.row, col: (c.col + 1) as usize }
        },
        Key::Ctrl(k) => if k == 'I' {
            Cursor { row: c.row, col: (c.col + 1) as usize }
        } else {
            c
        },
        Key::Unknown => c,
    }
}

/// The editing engine: the document, the cursor bound to it, the viewport
/// that maps it onto the screen, and the staged output of the current
/// render cycle.
pub struct Editor {
    text: TextBuffer,
    cursor: Cursor,
    viewport: Viewport,
    buffer: Buffer,
}

impl Editor {
    pub closed spec fn spec_text(&self) -> Seq<Seq<char>> {
        self.text@
    }

    pub closed spec fn spec_cursor(&self) -> Cursor {
        self.cursor
    }

    pub closed spec fn spec_viewport(&self) -> Viewport {
        self.viewport
    }

    pub closed spec fn spec_buffer(&self) -> Seq<char> {
        self.buffer@
    }

    /// The editor's standing invariant: the document has at least one
    /// line, the cursor sits on a line at a column within it, and the
    /// screen has at least one row and one column.
    pub closed spec fn wf(&self) -> bool {
        self.text.wf() && cursor_valid(self.text@, self.cursor) && self.viewport.dims_wf()
    }

    /// A fresh editor: one empty line, cursor at the origin, a one-cell
    /// screen until the real size is known, nothing staged.
    pub fn new() -> (r: Editor)
        ensures
            r.wf(),
            r.spec_text() =~~= seq![Seq::<char>::empty()],
            r.spec_cursor() == (Cursor { row: 0, col: 0 }),
            r.spec_viewport().row_offset == 0,
            r.spec_viewport().col_offset == 0,
            r.spec_viewport().screen_rows == 1,
            r.spec_viewport().screen_cols == 1,
            r.spec_buffer() =~= Seq::<char>::empty(),
    {
        Editor {
            text: TextBuffer::new(),
            cursor: Cursor::new(),
            viewport: Viewport { row_offset: 0, col_offset: 0, screen_rows: 1, screen_cols: 1 },
            buffer: Buffer::new(),
        }
    }

    /// Adopt a freshly reported terminal size; a reported zero becomes one,
    /// since the viewport cannot be empty.
    pub fn update_screen_size(&mut self, rows: u16, cols: u16)
        requires
            old(self).wf(),
        ensures
            final(self).wf(),
            final(self).spec_viewport().screen_rows == if rows == 0 { 1int } else { rows as int },
            final(self).spec_viewport().screen_cols == if cols == 0 { 1int } else { cols as int },
            final(self).spec_viewport().row_offset == old(self).spec_viewport().row_offset,
            final(self).spec_viewport().col_offset == old(self).spec_viewport().col_offset,
            final(self).spec_text() == old(self).spec_text(),
            final(self).spec_cursor() == old(self).spec_cursor(),
            final(self).spec_buffer() == old(self).spec_buffer(),
    {
        self.viewport.screen_rows = if rows == 0 { 1 } else { rows as usize };
        self.viewport.screen_cols = if cols == 0 { 1 } else { cols as usize };
    }

    /// Replace the document with the given text, split into lines; the
    /// cursor returns to the origin.
    pub fn load(&mut self, contents: &str)
        requires
            old(self).wf(),
        ensures
            final(self).wf(),
            final(self).spec_text() =~~= spec_load(contents@),
            final(self).spec_cursor() == (Cursor { row: 0, col: 0 }),
            final(self).spec_viewport() == old(self).spec_viewport(),
            final(self).spec_buffer() == old(self).spec_buffer(),
    {
        self.text = TextBuffer::load(contents);
        self.cursor = Cursor::new();
    }

    /// Read access to the document.
    pub fn text(&self) -> (r: &TextBuffer)
        ensures
            r@ == self.spec_text(),
    {
        &self.text
    }

    /// The cursor's current position.
    pub fn cursor(&self) -> (r: Cursor)
        ensures
            r == self.spec_cursor(),
    {
        self.cursor
    }

    /// The viewport's current state.
    pub fn viewport(&self) -> (r: Viewport)
        ensures
            r == self.spec_viewport(),
    {
        Viewport {
            row_offset: self.viewport.row_offset,
            col_offset: self.viewport.col_offset,
            screen_rows: self.viewport.screen_rows,
            screen_cols: self.viewport.screen_cols,
        }
    }

    /// Hand over the staged render output and start the next cycle empty.
    pub fn take_output(&mut self) -> (r: String)
        ensures
            old(self).wf() ==> final(self).wf(),
            r@ == old(self).spec_buffer(),
            final(self).spec_buffer() =~= Seq::<char>::empty(),
            final(self).spec_text() == old(self).spec_text(),
            final(self).spec_cursor() == old(self).spec_cursor(),
            final(self).spec_viewport() == old(self).spec_viewport(),
    {
        let r = self.buffer.get_all();
        self.buffer.clear();
        r
    }

    /// Scroll the viewport so the cursor is visible.
    pub fn scroll(&mut self)
        requires
            old(self).wf(),
        ensures
            final(self).wf(),
            final(self).spec_viewport() == spec_scroll(
                old(self).spec_viewport(),
                old(self).spec_cursor(),
            ),
            final(self).spec_viewport().contains(final(self).spec_cursor()),
            final(self).spec_text() == old(self).spec_text(),
            final(self).spec_cursor() == old(self).spec_cursor(),
            final(self).spec_buffer() == old(self).spec_buffer(),
    {
        self.viewport.recompute(self.cursor);
    }

    /// The centered welcome banner for the current screen width.
    pub fn header(&self) -> (r: String)
        ensures
            r@ =~= spec_header(self.spec_viewport().screen_cols as int),
    {
        let sc = self.viewport.screen_cols;
        let pad = if sc >= 16 { (sc - 16) / 2 } else { 0 };
        let mut b = Buffer::new();
        b.append_repeat('=', pad);
        b.append_char(' ');
        b.append_command(TCC::Pen(ColorPos::Fg(Color::BrightCyan)));
        b.append_str("Welcome to Edi");
        b.append_command(TCC::Pen(ColorPos::Reset));
        b.append_char(' ');
        b.append_repeat('=', pad);
        b.get_all()
    }

    /// Stage every screen row of the current cycle.
    pub fn draw_rows(&mut self)
        requires
            old(self).wf(),
        ensures
            final(self).wf(),
            final(self).spec_buffer() =~= old(self).spec_buffer() + spec_draw_rows(
                old(self).spec_text(),
                old(self).spec_viewport(),
            ),
            final(self).spec_text() == old(self).spec_text(),
            final(self).spec_cursor() == old(self).spec_cursor(),
            final(self).spec_viewport() == old(self).spec_viewport(),
    {
        let sr = self.viewport.screen_rows;
        let sc = self.viewport.screen_cols;
        let ro = self.viewport.row_offset;
        let co = self.viewport.col_offset;
        let n = self.text.line_count();
        let mut index: usize = 0;
        while index < sr
            invariant
                self.wf(),
                *self == (Editor {
                    buffer: self.buffer,
                    ..*old(self)
                }),
                sr == self.viewport.screen_rows,
                sc == self.viewport.screen_cols,
                ro == self.viewport.row_offset,
                co == self.viewport.col_offset,
                n == self.text@.len(),
                index <= sr,
                self.spec_buffer() =~= old(self).spec_buffer() + spec_draw_upto(
                    self.text@,
                    self.viewport,
                    index as int,
                ),
            decreases sr - index,
        {
            let ghost pre = self.buffer@;
            if ro < n && index < n - ro {
                let file_row = ro + index;
                let line = self.text.line(file_row);
                let len = line.len();
                let start = if co < len { co } else { len };
                let rem = len - start;
                let width = if sc < rem { sc } else { rem };
                self.buffer.append_range(line, start, start + width);
                proof {
                    assert(line@.subrange(start as int, start as int + width as int)
                        =~= spec_row_slice(self.text@[file_row as int], co as int, sc as int));
                }
            } else {
                let pristine = n == 1 && self.text.line_length(0) == 0;
                if pristine && index == sr / 3 {
                    let banner = self.header();
                    self.buffer.append_str(banner.as_str());
                } else {
                    self.buffer.append_char('~');
                }
            }
            self.buffer.append_command(TCC::EraseLine(Erase::FromCursor));
            if index < sr - 1 {
                self.buffer.append_char('\r');
                self.buffer.append_char('\n');
            }
            proof {
                assert(self.buffer@ =~= pre + spec_row_chunk(
                    self.text@,
                    self.viewport,
                    index as int,
                ));
            }
            index = index + 1;
        }
    }

    /// Stage the command that puts the terminal cursor on the cursor's
    /// screen cell (1-based).
    pub fn append_cursor(&mut self)
        requires
            old(self).wf(),
            old(self).spec_viewport().contains(old(self).spec_cursor()),
        ensures
            final(self).wf(),
            final(self).spec_buffer() =~= old(self).spec_buffer() + spec_term_sequence(
                TCC::PosC(
                    (old(self).spec_cursor().row - old(self).spec_viewport().row_offset
                        + 1) as usize,
                    (old(self).spec_cursor().col - old(self).spec_viewport().col_offset
                        + 1) as usize,
                ),
            ),
            final(self).spec_text() == old(self).spec_text(),
            final(self).spec_cursor() == old(self).spec_cursor(),
            final(self).spec_viewport() == old(self).spec_viewport(),
    {
        let row = self.cursor.row - self.viewport.row_offset + 1;
        let col = self.cursor.col - self.viewport.col_offset + 1;
        self.buffer.append_command(TCC::PosC(row, col));
    }

    /// One whole render cycle: scroll the cursor into view, then stage the
    /// full screen update.
    pub fn refresh_screen(&mut self)
        requires
            old(self).wf(),
        ensures
            final(self).wf(),
            final(self).spec_viewport() == spec_scroll(
                old(self).spec_viewport(),
                old(self).spec_cursor(),
            ),
            final(self).spec_buffer() =~= old(self).spec_buffer() + spec_refresh(
                old(self).spec_text(),
                final(self).spec_viewport(),
                old(self).spec_cursor(),
            ),
            final(self).spec_text() == old(self).spec_text(),
            final(self).spec_cursor() == old(self).spec_cursor(),
    {
        self.scroll();
        self.buffer.append_command(TCC::Hide);
        self.buffer.append_command(TCC::PosC(1, 1));
        self.draw_rows();
        self.append_cursor();
        self.buffer.append_command(TCC::Show);
    }

    /// Apply one arrow move to the cursor.
    pub fn process_arrow(&mut self, dir: ArrowDirection)
        requires
            old(self).wf(),
        ensures
            final(self).wf(),
            final(self).spec_cursor() == spec_move(
                old(self).spec_text(),
                old(self).spec_cursor(),
                dir,
            ),
            final(self).spec_text() == old(self).spec_text(),
            final(self).spec_viewport() == old(self).spec_viewport(),
            final(self).spec_buffer() == old(self).spec_buffer(),
    {
        self.cursor.arrow_move(dir, &self.text);
    }

    /// Handle one decoded key: move the cursor, edit the document, or
    /// demand an action of the session loop.
    pub fn process_key(&mut self, key: Key) -> (r: EditorAction)
        requires
            old(self).wf(),
        ensures
            final(self).wf(),
            r == spec_key_action(key),
            final(self).spec_text() =~~= spec_key_text(
                old(self).spec_text(),
                old(self).spec_cursor(),
                key,
            ),
            final(self).spec_cursor() == spec_key_cursor(
                old(self).spec_text(),
                old(self).spec_cursor(),
                old(self).spec_viewport().screen_rows,
                key,
            ),
            final(self).spec_viewport() == old(self).spec_viewport(),
            final(self).spec_buffer() == old(self).spec_buffer(),
    {
        match key {
            Key::Esc => {
                self.cursor = Cursor::new();
                EditorAction::Continue
            },
            Key::Arrow(dir) => {
                self.cursor.arrow_move(dir, &self.text);
                EditorAction::Continue
            },
            Key::PageUp => {
                self.page_move(ArrowDirection::Up);
                EditorAction::Continue
            },
            Key::PageDown => {
                self.page_move(ArrowDirection::Down);
                EditorAction::Continue
            },
            Key::Home => {
                self.cursor.home();
                EditorAction::Continue
            },
            Key::End => {
                self.cursor.end_of_line(&self.text);
                EditorAction::Continue
            },
            Key::Delete => {
                self.cursor.arrow_move(ArrowDirection::Left, &self.text);
                EditorAction::Continue
            },
            Key::NewLine => {
                self.text.split_line(self.cursor.row, self.cursor.col);
                let n = self.text.line_count();
                proof {
                    assert(self.cursor.row < n);
                }
                self.cursor.row = self.cursor.row + 1;
                self.cursor.col = 0;
                EditorAction::Continue
            },
            Key::Char(ch) => {
                if ch == '\u{7f}' {
                    let (row, col) = self.text.delete_char_before(self.cursor.row, self.cursor.col);
                    self.cursor.row = row;
                    self.cursor.col = col;
                } else {
                    self.insert_at_cursor(ch);
                }
                EditorAction::Continue
            },
            Key::Ctrl(k) => {
                if k == 'Q' {
                    EditorAction::Quit
                } else if k == 'S' {
                    EditorAction::Save
                } else if k == 'I' {
                    self.insert_at_cursor('\t');
                    EditorAction::Continue
                } else {
                    EditorAction::Continue
                }
            },
            Key::Unknown => EditorAction::Continue,
        }
    }

    /// Insert one code point at the cursor and step past it.
    fn insert_at_cursor(&mut self, ch: char)
        requires
            old(self).wf(),
        ensures
            final(self).wf(),
            final(self).spec_text() =~~= spec_insert_text(
                old(self).spec_text(),
                old(self).spec_cursor(),
                ch,
            ),
            final(self).spec_cursor() == (Cursor {
                row: old(self).spec_cursor().row,
                col: (old(self).spec_cursor().col + 1) as usize,
            }),
            final(self).spec_viewport() == old(self).spec_viewport(),
            final(self).spec_buffer() == old(self).spec_buffer(),
    {
        self.text.insert_char(self.cursor.row, self.cursor.col, ch);
        let nl = self.text.line_length(self.cursor.row);
        proof {
            assert(self.cursor.col < nl);
        }
        self.cursor.col = self.cursor.col + 1;
    }

    /// Step `screen_rows` times in one direction, one move at a time.
    fn page_move(&mut self, dir: ArrowDirection)
        requires
            old(self).wf(),
        ensures
            final(self).wf(),
            final(self).spec_cursor() == spec_moves_n(
                old(self).spec_text(),
                old(self).spec_cursor(),
                dir,
                old(self).spec_viewport().screen_rows as nat,
            ),
            final(self).spec_text() == old(self).spec_text(),
            final(self).spec_viewport() == old(self).spec_viewport(),
            final(self).spec_buffer() == old(self).spec_buffer(),
    {
        let steps = self.viewport.screen_rows;
        let mut k: usize = 0;
        while k < steps
            invariant
                self.wf(),
                *self == (Editor { cursor: self.cursor, ..*old(self) }),
                k <= steps,
                steps == old(self).spec_viewport().screen_rows,
                spec_moves_n(self.text@, self.cursor, dir, (steps - k) as nat) == spec_moves_n(
                    old(self).spec_text(),
                    old(self).spec_cursor(),
                    dir,
                    steps as nat,
                ),
            decreases steps - k,
        {
            self.cursor.arrow_move(dir, &self.text);
            k = k + 1;
        }
    }
}

} // verus!
