use vstd::prelude::*;

verus! {

/// How much of the display or line an erase command covers.
#[derive(Debug, PartialEq, Eq, Structural, Clone, Copy)]
pub enum Erase {
    FromCursor,
    ToCursor,
    All,
}

/// The base terminal colors, normal and bright.
#[derive(Debug, PartialEq, Eq, Structural, Clone, Copy)]
pub enum Color {
    Black,
    Red,
    Green,
    Yellow,
    Blue,
    Magenta,
    Cyan,
    White,
    BrightBlack,
    BrightRed,
    BrightGreen,
    BrightYellow,
    BrightBlue,
    BrightMagenta,
    BrightCyan,
    BrightWhite,
}

/// A color command: paint the foreground or the background, or reset both.
#[derive(Debug, PartialEq, Eq, Structural, Clone, Copy)]
pub enum ColorPos {
    Fg(Color),
    Bg(Color),
    Reset,
}

/// Terminal control commands, each encoded as one ANSI CSI sequence.
#[derive(Debug, PartialEq, Eq, Structural, Clone, Copy)]
pub enum TCC {
    /// Cursor position report query.
    Cpr,
    /// Cursor backward by N.
    CLeft(usize),
    /// Cursor down by N.
    CDown(usize),
    /// Cursor forward by N.
    CRight(usize),
    /// Cursor up by N.
    CUp(usize),
    /// Absolute cursor position (row, column), 1-based.
    PosC(usize, usize),
    EraseDisplay(Erase),
    EraseLine(Erase),
    /// Hide the cursor.
    Hide,
    /// Show the cursor.
    Show,
    /// Set or reset a color.
    Pen(ColorPos),
}

/// The digit character for one decimal digit.
pub open spec fn spec_digit(d: int) -> char {
    if d == 0 {
        '0'
    } else if d == 1 {
        '1'
    } else if d == 2 {
        '2'
    } else if d == 3 {
        '3'
    } else if d == 4 {
        '4'
    } else if d == 5 {
        '5'
    } else if d == 6 {
        '6'
    } else if d == 7 {
        '7'
    } else if d == 8 {
        '8'
    } else {
        '9'
    }
}

/// The decimal notation of `n`, most significant digit first, no sign and
/// no leading zero (a lone zero for `n == 0`).
pub open spec fn spec_decimal(n: nat) -> Seq<char>
    decreases n,
{
    if n < 10 {
        seq![spec_digit(n as int)]
    } else {
        spec_decimal(n / 10) + seq![spec_digit((n % 10) as int)]
    }
}

fn digit_char(d: usize) -> (c: char)
    requires
        d < 10,
    ensures
        c == spec_digit(d as int),
{
    if d == 0 {
        '0'
    } else if d == 1 {
        '1'
    } else if d == 2 {
        '2'
    } else if d == 3 {
        '3'
    } else if d == 4 {
        '4'
    } else if d == 5 {
        '5'
    } else if d == 6 {
        '6'
    } else if d == 7 {
        '7'
    } else if d == 8 {
        '8'
    } else {
        '9'
    }
}

/// Append the decimal notation of `n` to `out`.
fn push_decimal(out: &mut Vec<char>, n: usize)
    ensures
        final(out)@ =~= old(out)@ + spec_decimal(n as nat),
    decreases n,
{
    if n >= 10 {
        push_decimal(out, n / 10);
    }
    out.push(digit_char(n % 10));
}

/// The erase-mode parameter digit: from cursor, to cursor, or all.
pub open spec fn spec_erase_char(e: Erase) -> char {
    match e {
        Erase::FromCursor => '0',
        Erase::ToCursor => '1',
        Erase::All => '2',
    }
}

/// The erase-mode parameter of an erase command.
pub fn resolve_erase(erase: Erase) -> (r: char)
    ensures
        r == spec_erase_char(erase),
{
    match erase {
        Erase::FromCursor => '0',
        Erase::ToCursor => '1',
        Erase::All => '2',
    }
}

/// The SGR parameter that paints the foreground in `c`; the background
/// parameter is this plus ten.
pub open spec fn spec_fg_code(c: Color) -> nat {
    match c {
        Color::Black => 30,
        Color::Red => 31,
        Color::Green => 32,
        Color::Yellow => 33,
        Color::Blue => 34,
        Color::Magenta => 35,
        Color::Cyan => 36,
        Color::White => 37,
        Color::BrightBlack => 90,
        Color::BrightRed => 91,
        Color::BrightGreen => 92,
        Color::BrightYellow => 93,
        Color::BrightBlue => 94,
        Color::BrightMagenta => 95,
        Color::BrightCyan => 96,
        Color::BrightWhite => 97,
    }
}

/// The SGR parameter of a color command.
pub open spec fn spec_color_code(p: ColorPos) -> nat {
    match p {
        ColorPos::Fg(c) => spec_fg_code(c),
        ColorPos::Bg(c) => spec_fg_code(c) + 10,
        ColorPos::Reset => 0,
    }
}

fn fg_code(c: Color) -> (r: usize)
    ensures
        r == spec_fg_code(c),
{
    match c {
        Color::Black => 30,
        Color::Red => 31,
        Color::Green => 32,
        Color::Yellow => 33,
        Color::Blue => 34,
        Color::Magenta => 35,
        Color::Cyan => 36,
        Color::White => 37,
        Color::BrightBlack => 90,
        Color::BrightRed => 91,
        Color::BrightGreen => 92,
        Color::BrightYellow => 93,
        Color::BrightBlue => 94,
        Color::BrightMagenta => 95,
        Color::BrightCyan => 96,
        Color::BrightWhite => 97,
    }
}

/// The two-character CSI introducer: escape, `[`.
pub open spec fn spec_csi() -> Seq<char> {
    seq!['\x1b', '[']
}

/// The full escape sequence a terminal command encodes to.
pub open spec fn spec_term_sequence(tcc: TCC) -> Seq<char> {
    match tcc {
        TCC::Cpr => spec_csi() + seq!['6', 'n'],
        TCC::CLeft(n) => spec_csi() + spec_decimal(n as nat) + seq!['D'],
        TCC::CDown(n) => spec_csi() + spec_decimal(n as nat) + seq!['B'],
        TCC::CRight(n) => spec_csi() + spec_decimal(n as nat) + seq!['C'],
        TCC::CUp(n) => spec_csi() + spec_decimal(n as nat) + seq!['A'],
        TCC::PosC(row, col) => spec_csi() + spec_decimal(row as nat) + seq![';']
            + spec_decimal(col as nat) + seq!['H'],
        TCC::EraseDisplay(e) => spec_csi() + seq![spec_erase_char(e), 'J'],
        TCC::EraseLine(e) => spec_csi() + seq![spec_erase_char(e), 'K'],
        TCC::Hide => spec_csi() + seq!['?', '2', '5', 'l'],
        TCC::Show => spec_csi() + seq!['?', '2', '5', 'h'],
        TCC::Pen(p) => spec_csi() + spec_decimal(spec_color_code(p)) + seq!['m'],
    }
}

/// Encode one terminal command as its ANSI escape sequence.
pub fn term_sequence(tcc: TCC) -> (r: String)
    ensures
        r@ =~= spec_term_sequence(tcc),
{
    let chars = term_sequence_chars(tcc);
    chars_to_string(&chars)
}

fn term_sequence_chars(tcc: TCC) -> (r: Vec<char>)
    ensures
        r@ =~= spec_term_sequence(tcc),
{
    let mut out: Vec<char> = Vec::new();
    out.push('\x1b');
    out.push('[');
    match tcc {
        TCC::Cpr => {
            out.push('6');
            out.push('n');
        },
        TCC::CLeft(n) => {
            push_decimal(&mut out, n);
            out.push('D');
        },
        TCC::CDown(n) => {
            push_decimal(&mut out, n);
            out.push('B');
        },
        TCC::CRight(n) => {
            push_decimal(&mut out, n);
            out.push('C');
        },
        TCC::CUp(n) => {
            push_decimal(&mut out, n);
            out.push('A');
        },
        TCC::PosC(row, col) => {
            push_decimal(&mut out, row);
            out.push(';');
            push_decimal(&mut out, col);
            out.push('H');
        },
        TCC::EraseDisplay(e) => {
            out.push(resolve_erase(e));
            out.push('J');
        },
        TCC::EraseLine(e) => {
            out.push(resolve_erase(e));
            out.push('K');
        },
        TCC::Hide => {
            out.push('?');
            out.push('2');
            out.push('5');
            out.push('l');
        },
        TCC::Show => {
            out.push('?');
            out.push('2');
            out.push('5');
            out.push('h');
        },
        TCC::Pen(p) => {
            let code = match p {
                ColorPos::Fg(c) => fg_code(c),
                ColorPos::Bg(c) => fg_code(c) + 10,
                ColorPos::Reset => 0,
            };
            push_decimal(&mut out, code);
            out.push('m');
        },
    }
    out
}

/// An output staging area: the characters of one render cycle, flushed to
/// the terminal in a single write.
pub struct Buffer {
    data: Vec<char>,
}

impl View for Buffer {
    type V = Seq<char>;

    closed spec fn view(&self) -> Seq<char> {
        self.data@
    }
}

impl Buffer {
    pub fn new() -> (r: Buffer)
        ensures
            r@ =~= Seq::<char>::empty(),
    {
        Buffer { data: Vec::new() }
    }

    /// Append every character of `s`.
    pub fn append_str(&mut self, s: &str)
        ensures
            final(self)@ =~= old(self)@ + s@,
    {
        let n = s.unicode_len();
        let mut i: usize = 0;
        while i < n
            invariant
                n == s@.len(),
                i <= n,
                self@ =~= old(self)@ + s@.take(i as int),
            decreases n - i,
        {
            let c = s.get_char(i);
            self.data.push(c);
            i = i + 1;
            proof {
                assert(self@ =~= old(self)@ + s@.take(i as int));
            }
        }
        proof {
            assert(s@.take(n as int) =~= s@);
        }
    }

    /// Append every character of `s`, then a carriage return and a newline.
    pub fn append_line(&mut self, s: &str)
        ensures
            final(self)@ =~= old(self)@ + s@ + seq!['\r', '\n'],
    {
        self.append_str(s);
        self.data.push('\r');
        self.data.push('\n');
    }

    pub fn append_char(&mut self, c: char)
        ensures
            final(self)@ =~= old(self)@ + seq![c],
    {
        self.data.push(c);
    }

    /// Append a whole character vector.
    pub fn append_chars(&mut self, s: &Vec<char>)
        ensures
            final(self)@ =~= old(self)@ + s@,
    {
        let n = s.len();
        let mut i: usize = 0;
        while i < n
            invariant
                n == s@.len(),
                i <= n,
                self@ =~= old(self)@ + s@.take(i as int),
            decreases n - i,
        {
            self.data.push(s[i]);
            i = i + 1;
            proof {
                assert(self@ =~= old(self)@ + s@.take(i as int));
            }
        }
        proof {
            assert(s@.take(n as int) =~= s@);
        }
    }

    /// Append `n` copies of one character.
    pub fn append_repeat(&mut self, c: char, n: usize)
        ensures
            final(self)@ =~= old(self)@ + Seq::new(n as nat, |i: int| c),
    {
        let mut i: usize = 0;
        while i < n
            invariant
                i <= n,
                self@ =~= old(self)@ + Seq::new(i as nat, |j: int| c),
            decreases n - i,
        {
            self.data.push(c);
            i = i + 1;
            proof {
                assert(self@ =~= old(self)@ + Seq::new(i as nat, |j: int| c));
            }
        }
    }

    /// Append the characters of `s` from `start` (inclusive) to `end`
    /// (exclusive).
    pub fn append_range(&mut self, s: &Vec<char>, start: usize, end: usize)
        requires
            start <= end <= s@.len(),
        ensures
            final(self)@ =~= old(self)@ + s@.subrange(start as int, end as int),
    {
        let mut i: usize = start;
        while i < end
            invariant
                start <= i <= end <= s@.len(),
                self@ =~= old(self)@ + s@.subrange(start as int, i as int),
            decreases end - i,
        {
            self.data.push(s[i]);
            i = i + 1;
            proof {
                assert(self@ =~= old(self)@ + s@.subrange(start as int, i as int));
            }
        }
    }

    /// Append one terminal command's escape sequence.
    pub fn append_command(&mut self, tcc: TCC)
        ensures
            final(self)@ =~= old(self)@ + spec_term_sequence(tcc),
    {
        let s = term_sequence_chars(tcc);
        self.append_chars(&s);
    }

    /// The staged characters, as a string to hand to the terminal.
    pub fn get_all(&self) -> (r: String)
        ensures
            r@ == self@,
    {
        chars_to_string(&self.data)
    }

    pub fn clear(&mut self)
        ensures
            final(self)@ =~= Seq::<char>::empty(),
    {
        self.data.clear();
    }
}

/// Relies on `String: FromIterator<char>`: collecting an iterator of
/// characters yields the string of exactly those characters, in order.
#[verifier::external_body]
fn chars_to_string(v: &Vec<char>) -> (r: String)
    ensures
        r@ == v@,
{
    v.iter().collect()
}

} // verus!
