use vstd::prelude::*;

verus! {

/// Split a character sequence into pieces at every `'\n'`; the result always
/// has at least one piece, and the separators are not kept.
pub open spec fn spec_split_nl(s: Seq<char>) -> Seq<Seq<char>>
    decreases s.len(),
{
    if s.len() == 0 {
        seq![Seq::<char>::empty()]
    } else if s[0] == '\n' {
        seq![Seq::<char>::empty()] + spec_split_nl(s.drop_first())
    } else {
        let rest = spec_split_nl(s.drop_first());
        seq![seq![s[0]] + rest[0]] + rest.drop_first()
    }
}

pub proof fn lemma_split_nl_len(s: Seq<char>)
    ensures
        spec_split_nl(s).len() >= 1,
    decreases s.len(),
{
    if s.len() != 0 {
        lemma_split_nl_len(s.drop_first());
    }
}

/// Drop one carriage return from the end of a line, if it ends in one;
/// this is how a `"\r\n"` terminator loses its `'\r'`.
pub open spec fn spec_strip_cr(l: Seq<char>) -> Seq<char> {
    if l.len() > 0 && l.last() == '\r' {
        l.drop_last()
    } else {
        l
    }
}

/// What loading a text yields: split at `'\n'`, drop the `'\r'` that a
/// `"\r\n"` terminator leaves at the end of each piece a `'\n'` ended —
/// the final piece, which no `'\n'` ended, keeps a bare `'\r'` — and drop
/// the empty final piece that a trailing terminator leaves behind.  The
/// result always has at least one line.
pub open spec fn spec_load(s: Seq<char>) -> Seq<Seq<char>> {
    let raw = spec_split_nl(s);
    let stripped = raw.drop_last().map_values(|l: Seq<char>| spec_strip_cr(l)) + seq![raw.last()];
    if stripped.len() > 1 && stripped.last().len() == 0 {
        stripped.drop_last()
    } else {
        stripped
    }
}

/// What persisting a buffer yields: every line followed by one `'\n'`.
pub open spec fn spec_serialize(lines: Seq<Seq<char>>) -> Seq<char>
    decreases lines.len(),
{
    if lines.len() == 0 {
        Seq::<char>::empty()
    } else {
        lines[0] + seq!['\n'] + spec_serialize(lines.drop_first())
    }
}

/// An ordered sequence of text lines, each a sequence of code points.
/// A buffer never has zero lines: the empty document is one empty line.
pub struct TextBuffer {
    lines: Vec<Vec<char>>,
}

impl View for TextBuffer {
    type V = Seq<Seq<char>>;

    closed spec fn view(&self) -> Seq<Seq<char>> {
        Seq::new(self.lines@.len(), |i: int| self.lines@[i]@)
    }
}

impl TextBuffer {
    /// The one invariant of a buffer: it holds at least one line.
    pub open spec fn wf(&self) -> bool {
        self@.len() >= 1
    }

    /// The empty document: a single empty line.
    pub fn new() -> (r: TextBuffer)
        ensures
            r.wf(),
            r@ =~~= seq![Seq::<char>::empty()],
    {
        let mut lines: Vec<Vec<char>> = Vec::new();
        lines.push(Vec::new());
        TextBuffer { lines }
    }

    pub fn line_count(&self) -> (r: usize)
        ensures
            r == self@.len(),
    {
        self.lines.len()
    }

    pub fn line_length(&self, row: usize) -> (r: usize)
        requires
            row < self@.len(),
        ensures
            r == self@[row as int].len(),
    {
        self.lines[row].len()
    }

    /// Read access to one line.
    pub fn line(&self, row: usize) -> (r: &Vec<char>)
        requires
            row < self@.len(),
        ensures
            r@ == self@[row as int],
    {
        &self.lines[row]
    }

    /// Insert `ch` at code-point offset `col` of line `row`.
    pub fn insert_char(&mut self, row: usize, col: usize, ch: char)
        requires
            old(self).wf(),
            row < old(self)@.len(),
            col <= old(self)@[row as int].len(),
        ensures
            final(self).wf(),
            final(self)@ =~~= old(self)@.update(row as int, old(self)@[row as int].insert(col as int, ch)),
    {
        let mut line = self.lines.remove(row);
        line.insert(col, ch);
        self.lines.insert(row, line);
    }

    /// Cut line `row` at `col`: the head keeps its place and the tail
    /// becomes a new line right after it.
    pub fn split_line(&mut self, row: usize, col: usize)
        requires
            old(self).wf(),
            row < old(self)@.len(),
            col <= old(self)@[row as int].len(),
        ensures
            final(self).wf(),
            final(self)@ =~~= old(self)@.update(row as int, old(self)@[row as int].take(col as int))
                .insert(row as int + 1, old(self)@[row as int].skip(col as int)),
    {
        let mut line = self.lines.remove(row);
        let tail = line.split_off(col);
        self.lines.insert(row, tail);
        self.lines.insert(row, line);
    }

    /// Delete the code point before `(row, col)`.  At the start of a line
    /// this joins the line onto the previous one; at the start of the
    /// document it does nothing.  Returns the position the cursor lands on.
    pub fn delete_char_before(&mut self, row: usize, col: usize) -> (r: (usize, usize))
        requires
            old(self).wf(),
            row < old(self)@.len(),
            col <= old(self)@[row as int].len(),
        ensures
            final(self).wf(),
            col > 0 ==> final(self)@ =~~= old(self)@.update(row as int, old(self)@[row as int].remove(col as int - 1))
                && r == (row, (col - 1) as usize),
            col == 0 && row > 0 ==> final(self)@ =~~= old(self)@
                .update(row as int - 1, old(self)@[row as int - 1] + old(self)@[row as int])
                .remove(row as int)
                && r == ((row - 1) as usize, old(self)@[row as int - 1].len() as usize),
            col == 0 && row == 0 ==> final(self)@ =~~= old(self)@ && r == (0usize, 0usize),
    {
        if col > 0 {
            let mut line = self.lines.remove(row);
            line.remove(col - 1);
            self.lines.insert(row, line);
            (row, col - 1)
        } else if row > 0 {
            let mut cur = self.lines.remove(row);
            let mut prev = self.lines.remove(row - 1);
            let new_col = prev.len();
            prev.append(&mut cur);
            self.lines.insert(row - 1, prev);
            (row - 1, new_col)
        } else {
            (0, 0)
        }
    }

    /// Build a buffer from a text: lines split on `'\n'` or `"\r\n"`.
    /// Never fails; any text yields at least one line.
    pub fn load(text: &str) -> (r: TextBuffer)
        ensures
            r.wf(),
            r@ =~~= spec_load(text@),
    {
        let n = text.unicode_len();
        let mut raw: Vec<Vec<char>> = Vec::new();
        let mut cur: Vec<char> = Vec::new();
        let mut i: usize = 0;
        proof {
            assert(text@.skip(0) =~= text@);
        }
        while i < n
            invariant
                n == text@.len(),
                i <= n,
                spec_split_nl(text@) =~~= views_of(raw) + cons_first(cur@, spec_split_nl(text@.skip(i as int))),
            decreases n - i,
        {
            proof {
                assert(text@.skip(i as int).drop_first() =~= text@.skip(i as int + 1));
                assert(text@.skip(i as int)[0] == text@[i as int]);
                lemma_split_nl_len(text@.skip(i as int + 1));
            }
            let c = text.get_char(i);
            if c == '\n' {
                raw.push(cur);
                cur = Vec::new();
            } else {
                cur.push(c);
            }
            i = i + 1;
        }
        proof {
            assert(text@.skip(n as int) =~= Seq::<char>::empty());
        }
        raw.push(cur);
        proof {
            assert(views_of(raw) =~~= spec_split_nl(text@));
        }
        let ghost raw0 = spec_split_nl(text@);
        let ghost stripped = raw0.drop_last().map_values(|l: Seq<char>| spec_strip_cr(l))
            + seq![raw0.last()];
        // every piece a newline ended loses one trailing carriage return;
        // the final piece had no terminator and is kept as it stands
        let mut lines: Vec<Vec<char>> = Vec::new();
        while raw.len() > 1
            invariant
                raw@.len() >= 1,
                lines@.len() + raw@.len() == raw0.len(),
                forall|k: int| 0 <= k < lines@.len() ==> #[trigger] lines@[k]@ == spec_strip_cr(raw0[k]),
                forall|k: int| 0 <= k < raw@.len() ==> #[trigger] raw@[k]@ == raw0[lines@.len() + k],
            decreases raw@.len(),
        {
            let ghost piece = raw0[lines@.len() as int];
            let mut line = raw.remove(0);
            if line.len() > 0 {
                let last = line[line.len() - 1];
                if last == '\r' {
                    line.pop();
                    proof {
                        assert(line@ =~= spec_strip_cr(piece));
                    }
                }
            }
            lines.push(line);
        }
        let tail_piece = raw.remove(0);
        lines.push(tail_piece);
        proof {
            assert(views_of(lines) =~~= stripped);
        }
        // a trailing terminator leaves one empty piece at the end: drop it
        if lines.len() > 1 && lines[lines.len() - 1].len() == 0 {
            lines.pop();
            proof {
                assert(views_of(lines) =~~= stripped.drop_last());
            }
        }
        let r = TextBuffer { lines };
        proof {
            lemma_split_nl_len(text@);
            assert(r@ =~~= spec_load(text@));
        }
        r
    }

    /// The whole document as one character sequence, every line followed
    /// by a single `'\n'`.
    pub fn serialize(&self) -> (r: Vec<char>)
        ensures
            r@ =~= spec_serialize(self@),
    {
        let mut out: Vec<char> = Vec::new();
        let mut row: usize = 0;
        let n = self.lines.len();
        proof {
            assert(self@.skip(0) =~~= self@);
        }
        while row < n
            invariant
                n == self@.len(),
                row <= n,
                spec_serialize(self@) =~= out@ + spec_serialize(self@.skip(row as int)),
            decreases n - row,
        {
            proof {
                assert(self@.skip(row as int).drop_first() =~~= self@.skip(row as int + 1));
                assert(self@.skip(row as int)[0] == self@[row as int]);
            }
            let line = &self.lines[row];
            let ghost out0 = out@;
            let mut j: usize = 0;
            let m = line.len();
            while j < m
                invariant
                    m == line@.len(),
                    j <= m,
                    out@ =~= out0 + line@.take(j as int),
                decreases m - j,
            {
                out.push(line[j]);
                j = j + 1;
                proof {
                    assert(out@ =~= out0 + line@.take(j as int));
                }
            }
            proof {
                assert(line@.take(m as int) =~= line@);
            }
            out.push('\n');
            row = row + 1;
        }
        out
    }
}

/// Replace the first piece of `l` with `p` prepended to it.
pub open spec fn cons_first(p: Seq<char>, l: Seq<Seq<char>>) -> Seq<Seq<char>> {
    seq![p + l[0]] + l.drop_first()
}

/// The views of the elements of a vector of lines.
pub open spec fn views_of(v: Vec<Vec<char>>) -> Seq<Seq<char>> {
    Seq::new(v@.len(), |i: int| v@[i]@)
}

} // verus!
