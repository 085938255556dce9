//! The verified core of a small terminal text editor: a line buffer with
//! insert, split, join and delete operations, a cursor clamped to the
//! buffer's shape, a viewport that scrolls the cursor into view, a decoder
//! that turns raw terminal bytes (including ANSI escape sequences) into
//! logical keys, and a render pipeline that stages every screen update as
//! one character sequence.  Terminal I/O itself stays outside.

pub mod cursor;
pub mod editor;
pub mod keys;
pub mod report;
pub mod term;
pub mod textbuf;
pub mod viewport;

use vstd::prelude::*;

verus! {

/// Clamp `x` into the inclusive range `[lo, hi]`.
pub fn clamp_usize(x: usize, lo: usize, hi: usize) -> (r: usize)
    requires
        lo <= hi,
    ensures
        r == spec_clamp(x as int, lo as int, hi as int),
{
    if x < lo {
        lo
    } else if x > hi {
        hi
    } else {
        x
    }
}

/// What clamping into `[lo, hi]` means.
pub open spec fn spec_clamp(x: int, lo: int, hi: int) -> int {
    if x < lo {
        lo
    } else if x > hi {
        hi
    } else {
        x
    }
}

} // verus!
