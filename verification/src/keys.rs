use vstd::prelude::*;

verus! {

/// Direction carried by an arrow key.
#[derive(Debug, PartialEq, Eq, Structural, Clone, Copy)]
pub enum ArrowDirection {
    Up,
    Down,
    Left,
    Right,
}

/// A decoded logical key event.
#[derive(Debug, PartialEq, Eq, Structural, Clone, Copy)]
pub enum Key {
    Esc,
    Char(char),
    Ctrl(char),
    Arrow(ArrowDirection),
    NewLine,
    PageUp,
    PageDown,
    Home,
    End,
    Delete,
    Unknown,
}

/// Where the decoder stands inside a (possibly multi-byte) key sequence.
#[derive(Debug, PartialEq, Eq, Structural, Clone, Copy)]
pub enum DecodeState {
    /// No bytes of a sequence seen yet.
    Start,
    /// An escape byte (0x1b) was seen.
    AfterEsc,
    /// Escape followed by `[` (a CSI sequence).
    Csi,
    /// Escape, `[`, and one parameter digit; a `~` must follow.
    CsiDigit(u8),
    /// Escape followed by `O`.
    EscO,
}

/// The outcome of feeding one byte to the decoder: either the sequence is
/// still incomplete, or a key was decoded.
#[derive(Debug, PartialEq, Eq, Structural, Clone, Copy)]
pub enum DecodeStep {
    Pending(DecodeState),
    Done(Key),
}

/// The key that a single byte outside any escape sequence decodes to:
/// 0x1b starts an escape sequence (not covered here), 10 and 13 are
/// newline, 1..=26 are control-letter chords, anything else is itself.
pub open spec fn spec_plain_key(b: u8) -> Key {
    if b == 10 || b == 13 {
        Key::NewLine
    } else if 1 <= b && b <= 26 {
        Key::Ctrl(((b + 64) as u8) as char)
    } else {
        Key::Char(b as char)
    }
}

/// The key that a CSI numeric parameter digit selects once the closing
/// `~` arrives.
pub open spec fn spec_csi_tilde_key(d: u8) -> Key {
    if d == 53u8 {
        Key::PageUp
    } else if d == 54u8 {
        Key::PageDown
    } else if d == 49u8 || d == 55u8 {
        Key::Home
    } else if d == 52u8 || d == 56u8 {
        Key::End
    } else if d == 51u8 {
        Key::Delete
    } else {
        Key::Unknown
    }
}

/// The decoder's transition table: what feeding byte `b` in state `s` yields.
pub open spec fn spec_step(s: DecodeState, b: u8) -> DecodeStep {
    match s {
        DecodeState::Start => {
            if b == 0x1b {
                DecodeStep::Pending(DecodeState::AfterEsc)
            } else {
                DecodeStep::Done(spec_plain_key(b))
            }
        },
        DecodeState::AfterEsc => {
            if b == 91u8 {
                DecodeStep::Pending(DecodeState::Csi)
            } else if b == 79u8 {
                DecodeStep::Pending(DecodeState::EscO)
            } else {
                DecodeStep::Done(Key::Unknown)
            }
        },
        DecodeState::Csi => {
            if 48u8 <= b && b <= 57u8 {
                DecodeStep::Pending(DecodeState::CsiDigit(b))
            } else if b == 65u8 {
                DecodeStep::Done(Key::Arrow(ArrowDirection::Up))
            } else if b == 66u8 {
                DecodeStep::Done(Key::Arrow(ArrowDirection::Down))
            } else if b == 67u8 {
                DecodeStep::Done(Key::Arrow(ArrowDirection::Right))
            } else if b == 68u8 {
                DecodeStep::Done(Key::Arrow(ArrowDirection::Left))
            } else if b == 72u8 {
                DecodeStep::Done(Key::Home)
            } else if b == 70u8 {
                DecodeStep::Done(Key::End)
            } else {
                DecodeStep::Done(Key::Unknown)
            }
        },
        DecodeState::CsiDigit(d) => {
            if b == 126u8 {
                DecodeStep::Done(spec_csi_tilde_key(d))
            } else {
                DecodeStep::Done(Key::Unknown)
            }
        },
        DecodeState::EscO => {
            if b == 72u8 {
                DecodeStep::Done(Key::Home)
            } else if b == 70u8 {
                DecodeStep::Done(Key::End)
            } else {
                DecodeStep::Done(Key::Unknown)
            }
        },
    }
}

/// Feed one byte in state `s`; the result follows the transition table.
pub fn step(s: DecodeState, b: u8) -> (r: DecodeStep)
    ensures
        r == spec_step(s, b),
{
    match s {
        DecodeState::Start => {
            if b == 0x1b {
                DecodeStep::Pending(DecodeState::AfterEsc)
            } else if b == 10 || b == 13 {
                DecodeStep::Done(Key::NewLine)
            } else if 1 <= b && b <= 26 {
                DecodeStep::Done(Key::Ctrl((b + 64) as char))
            } else {
                DecodeStep::Done(Key::Char(b as char))
            }
        },
        DecodeState::AfterEsc => {
            if b == 91u8 {
                DecodeStep::Pending(DecodeState::Csi)
            } else if b == 79u8 {
                DecodeStep::Pending(DecodeState::EscO)
            } else {
                DecodeStep::Done(Key::Unknown)
            }
        },
        DecodeState::Csi => {
            if 48u8 <= b && b <= 57u8 {
                DecodeStep::Pending(DecodeState::CsiDigit(b))
            } else if b == 65u8 {
                DecodeStep::Done(Key::Arrow(ArrowDirection::Up))
            } else if b == 66u8 {
                DecodeStep::Done(Key::Arrow(ArrowDirection::Down))
            } else if b == 67u8 {
                DecodeStep::Done(Key::Arrow(ArrowDirection::Right))
            } else if b == 68u8 {
                DecodeStep::Done(Key::Arrow(ArrowDirection::Left))
            } else if b == 72u8 {
                DecodeStep::Done(Key::Home)
            } else if b == 70u8 {
                DecodeStep::Done(Key::End)
            } else {
                DecodeStep::Done(Key::Unknown)
            }
        },
        DecodeState::CsiDigit(d) => {
            if b == 126u8 {
                if d == 53u8 {
                    DecodeStep::Done(Key::PageUp)
                } else if d == 54u8 {
                    DecodeStep::Done(Key::PageDown)
                } else if d == 49u8 || d == 55u8 {
                    DecodeStep::Done(Key::Home)
                } else if d == 52u8 || d == 56u8 {
                    DecodeStep::Done(Key::End)
                } else if d == 51u8 {
                    DecodeStep::Done(Key::Delete)
                } else {
                    DecodeStep::Done(Key::Unknown)
                }
            } else {
                DecodeStep::Done(Key::Unknown)
            }
        },
        DecodeState::EscO => {
            if b == 72u8 {
                DecodeStep::Done(Key::Home)
            } else if b == 70u8 {
                DecodeStep::Done(Key::End)
            } else {
                DecodeStep::Done(Key::Unknown)
            }
        },
    }
}

/// An incremental decoder: bytes go in one at a time, keys come out as
/// soon as a sequence is complete.
pub struct KeyDecoder {
    state: DecodeState,
}

impl KeyDecoder {
    /// The decoder's current state.
    pub closed spec fn view(&self) -> DecodeState {
        self.state
    }

    pub fn new() -> (r: KeyDecoder)
        ensures
            r@ == DecodeState::Start,
    {
        KeyDecoder { state: DecodeState::Start }
    }

    /// Feed one byte: returns the decoded key once a sequence completes
    /// (the decoder then starts over), or nothing while more bytes are
    /// still needed.
    pub fn feed(&mut self, b: u8) -> (r: Option<Key>)
        ensures
            match spec_step(old(self)@, b) {
                DecodeStep::Pending(s) => r is None && final(self)@ == s,
                DecodeStep::Done(k) => r == Some(k) && final(self)@ == DecodeState::Start,
            },
    {
        match step(self.state, b) {
            DecodeStep::Pending(s) => {
                self.state = s;
                None
            },
            DecodeStep::Done(k) => {
                self.state = DecodeState::Start;
                Some(k)
            },
        }
    }

    /// Tell the decoder the current read ended with no further bytes: an
    /// escape with nothing after it becomes the escape key, a sequence cut
    /// off mid-way becomes unrecognized, and the decoder starts over.
    pub fn flush(&mut self) -> (r: Option<Key>)
        ensures
            r == spec_flush(old(self)@),
            final(self)@ == DecodeState::Start,
    {
        let r = match self.state {
            DecodeState::Start => None,
            DecodeState::AfterEsc => Some(Key::Esc),
            DecodeState::Csi => Some(Key::Unknown),
            DecodeState::CsiDigit(_) => Some(Key::Unknown),
            DecodeState::EscO => Some(Key::Unknown),
        };
        self.state = DecodeState::Start;
        r
    }
}

/// What a read boundary decodes to in each state: an escape byte with no
/// following bytes within the read is the escape key itself; a sequence cut
/// off mid-way is unrecognized; outside a sequence there is nothing to say.
pub open spec fn spec_flush(s: DecodeState) -> Option<Key> {
    match s {
        DecodeState::Start => None,
        DecodeState::AfterEsc => Some(Key::Esc),
        DecodeState::Csi => Some(Key::Unknown),
        DecodeState::CsiDigit(_) => Some(Key::Unknown),
        DecodeState::EscO => Some(Key::Unknown),
    }
}

/// What a whole byte sequence decodes to, starting in state `s`: the key of
/// the first complete sequence, or nothing if the bytes run out first.
pub open spec fn spec_decode(s: DecodeState, bytes: Seq<u8>) -> Option<Key>
    decreases bytes.len(),
{
    if bytes.len() == 0 {
        None
    } else {
        match spec_step(s, bytes[0]) {
            DecodeStep::Done(k) => Some(k),
            DecodeStep::Pending(s2) => spec_decode(s2, bytes.drop_first()),
        }
    }
}

/// Decode one key from the start of `bytes`; bytes past the first complete
/// sequence are ignored.
pub fn decode_bytes(bytes: &Vec<u8>) -> (r: Option<Key>)
    ensures
        r == spec_decode(DecodeState::Start, bytes@),
{
    let mut st = DecodeState::Start;
    let mut i: usize = 0;
    proof {
        assert(bytes@.skip(0) =~= bytes@);
    }
    while i < bytes.len()
        invariant
            i <= bytes@.len(),
            spec_decode(DecodeState::Start, bytes@) == spec_decode(st, bytes@.skip(i as int)),
        decreases bytes@.len() - i,
    {
        proof {
            assert(bytes@.skip(i as int).drop_first() =~= bytes@.skip(i as int + 1));
        }
        match step(st, bytes[i]) {
            DecodeStep::Done(k) => {
                return Some(k);
            },
            DecodeStep::Pending(s2) => {
                st = s2;
            },
        }
        i = i + 1;
    }
    None
}

} // verus!
