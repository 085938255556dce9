use vstd::prelude::*;

verus! {

/// An ASCII decimal digit.
pub open spec fn is_digit(b: u8) -> bool {
    48 <= b <= 57
}

/// Scan a decimal number from position `i`, continuing an already
/// accumulated value: consume digits until the first non-digit or the end,
/// and fail on a value that does not fit in `u16`.  Returns the value and
/// the position of the first byte after it.
pub open spec fn spec_scan_u16(s: Seq<u8>, i: int, acc: u16) -> Option<(u16, int)>
    decreases s.len() - i,
{
    if i < 0 || i > s.len() {
        None
    } else if i == s.len() || !is_digit(s[i]) {
        Some((acc, i))
    } else {
        let d = (s[i] - 48) as u16;
        if acc > 6553 || (acc == 6553 && d > 5) {
            None
        } else {
            spec_scan_u16(s, i + 1, (acc * 10 + d) as u16)
        }
    }
}

/// What a cursor position report parses to.  A report has exactly the
/// shape escape, `[`, a row number, `;`, a column number, `R`, with at
/// least one digit in each number; anything else — and any number that
/// does not fit in `u16` — parses to nothing.
pub open spec fn spec_parse_report(s: Seq<u8>) -> Option<(u16, u16)> {
    if s.len() < 3 || s[0] != 27 || s[1] != 91 || !is_digit(s[2]) {
        None
    } else {
        match spec_scan_u16(s, 2, 0) {
            None => None,
            Some((rows, i)) => {
                if i == s.len() || s[i] != 59 || i + 1 == s.len() || !is_digit(s[i + 1]) {
                    None
                } else {
                    match spec_scan_u16(s, i + 1, 0) {
                        None => None,
                        Some((cols, j)) => {
                            if j == s.len() - 1 && s[j] == 82 {
                                Some((rows, cols))
                            } else {
                                None
                            }
                        },
                    }
                }
            },
        }
    }
}

/// Parse a terminal's cursor position report, `"\x1b[<rows>;<cols>R"`,
/// into its two numbers.
pub fn parse_cursor_report(resp: &Vec<u8>) -> (r: Option<(u16, u16)>)
    ensures
        r == spec_parse_report(resp@),
{
    if resp.len() < 3 || resp[0] != 27 || resp[1] != 91 {
        return None;
    }
    if !(48 <= resp[2] && resp[2] <= 57) {
        return None;
    }
    let mut i: usize = 2;
    let mut rows: u16 = 0;
    while i < resp.len() && 48 <= resp[i] && resp[i] <= 57
        invariant
            2 <= i <= resp@.len(),
            spec_scan_u16(resp@, 2, 0) == spec_scan_u16(resp@, i as int, rows),
        decreases resp@.len() - i,
    {
        let d = (resp[i] - 48) as u16;
        if rows > 6553 || (rows == 6553 && d > 5) {
            proof {
                assert(spec_scan_u16(resp@, i as int, rows) == None::<(u16, int)>);
            }
            return None;
        }
        rows = rows * 10 + d;
        i = i + 1;
    }
    if i == resp.len() || resp[i] != 59 {
        return None;
    }
    if i + 1 == resp.len() || !(48 <= resp[i + 1] && resp[i + 1] <= 57) {
        return None;
    }
    let mut j: usize = i + 1;
    let mut cols: u16 = 0;
    while j < resp.len() && 48 <= resp[j] && resp[j] <= 57
        invariant
            resp@.len() >= 3 && resp@[0] == 27 && resp@[1] == 91 && is_digit(resp@[2]),
            spec_scan_u16(resp@, 2, 0) == Some((rows, i as int)),
            i < resp@.len() && resp@[i as int] == 59,
            i + 1 < resp@.len() && is_digit(resp@[i as int + 1]),
            i + 1 <= j <= resp@.len(),
            spec_scan_u16(resp@, i as int + 1, 0) == spec_scan_u16(resp@, j as int, cols),
        decreases resp@.len() - j,
    {
        let d = (resp[j] - 48) as u16;
        if cols > 6553 || (cols == 6553 && d > 5) {
            proof {
                assert(spec_scan_u16(resp@, j as int, cols) == None::<(u16, int)>);
            }
            return None;
        }
        cols = cols * 10 + d;
        j = j + 1;
    }
    if j == resp.len() - 1 && resp[j] == 82 {
        Some((rows, cols))
    } else {
        None
    }
}

} // verus!
