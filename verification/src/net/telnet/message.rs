//! The Telnet codec: one frame of the IAC byte stream at a time.

use super::codes;
use vstd::prelude::*;
use vstd::slice::{slice_subrange, slice_to_vec};

verus! {

/// One frame of the Telnet byte stream.
#[derive(Clone, Debug)]
pub enum TelnetMessage {
    /// A run of application bytes.
    Data(Vec<u8>),
    /// A stand-alone two-byte command.
    IAC(u8),
    /// `WILL`, `WONT`, `DO` or `DONT`, and the option it is about.
    Negotiate(u8, u8),
    /// An option and the payload of its sub-negotiation.
    SubNegotiate(u8, Vec<u8>),
}

/// What a `TelnetMessage` stands for.
pub enum Frame {
    Data(Seq<u8>),
    IAC(u8),
    Negotiate(u8, u8),
    SubNegotiate(u8, Seq<u8>),
}

impl View for TelnetMessage {
    type V = Frame;

    open spec fn view(&self) -> Frame {
        match *self {
            TelnetMessage::Data(d) => Frame::Data(d@),
            TelnetMessage::IAC(c) => Frame::IAC(c),
            TelnetMessage::Negotiate(c, op) => Frame::Negotiate(c, op),
            TelnetMessage::SubNegotiate(op, d) => Frame::SubNegotiate(op, d@),
        }
    }
}

/// The four negotiation verbs.
pub open spec fn is_negotiation(cmd: u8) -> bool {
    cmd == codes::WILL || cmd == codes::WONT || cmd == codes::DO || cmd == codes::DONT
}

/// The bytes that a frame is written as. A data payload goes out as it is.
pub open spec fn encoded(f: Frame) -> Seq<u8> {
    match f {
        Frame::Data(d) => d,
        Frame::IAC(c) => seq![codes::IAC, c],
        Frame::Negotiate(c, op) => seq![codes::IAC, c, op],
        Frame::SubNegotiate(op, d) => seq![codes::IAC, codes::SB, op] + d + seq![
            codes::IAC,
            codes::SE,
        ],
    }
}

/// The first index at or after `from` that holds an IAC, or the length of `s`
/// where there is none.
pub open spec fn data_run_end(s: Seq<u8>, from: int) -> int
    decreases s.len() - from,
{
    if from >= s.len() || s[from] == codes::IAC {
        from
    } else {
        data_run_end(s, from + 1)
    }
}

/// The first index at or after `from` at which `IAC SE` stands, or the length
/// of `s` where there is none.
pub open spec fn sub_end(s: Seq<u8>, from: int) -> int
    decreases s.len() - from,
{
    if from + 1 >= s.len() {
        s.len() as int
    } else if s[from] == codes::IAC && s[from + 1] == codes::SE {
        from
    } else {
        sub_end(s, from + 1)
    }
}

/// The frame at the head of `s` and the number of bytes it takes up, or `None`
/// where `s` is empty or ends inside a frame.
pub open spec fn decoded(s: Seq<u8>) -> Option<(Frame, int)> {
    if s.len() == 0 {
        None
    } else if s[0] != codes::IAC {
        let n = data_run_end(s, 0);
        Some((Frame::Data(s.subrange(0, n)), n))
    } else if s.len() < 2 {
        None
    } else if s[1] == codes::IAC {
        Some((Frame::Data(seq![codes::IAC]), 2))
    } else if is_negotiation(s[1]) {
        if s.len() > 2 {
            Some((Frame::Negotiate(s[1], s[2]), 3))
        } else {
            None
        }
    } else if s[1] == codes::SB {
        let p = sub_end(s, 3);
        if p + 1 < s.len() {
            Some((Frame::SubNegotiate(s[2], s.subrange(3, p)), p + 2))
        } else {
            None
        }
    } else {
        Some((Frame::IAC(s[1]), 2))
    }
}

/// A data run ends inside the input, holds no IAC, and stops at an IAC or at
/// the end of the input.
pub proof fn lemma_data_run_end(s: Seq<u8>, from: int)
    requires
        0 <= from <= s.len(),
    ensures
        from <= data_run_end(s, from) <= s.len(),
        forall|i: int| from <= i < data_run_end(s, from) ==> s[i] != codes::IAC,
        data_run_end(s, from) < s.len() ==> s[data_run_end(s, from)] == codes::IAC,
    decreases s.len() - from,
{
    if from < s.len() && s[from] != codes::IAC {
        lemma_data_run_end(s, from + 1);
    }
}

/// A sub-negotiation ends at the first `IAC SE`: none stands before the index
/// that `sub_end` gives, and one stands there unless the index is the length.
pub proof fn lemma_sub_end(s: Seq<u8>, from: int)
    requires
        0 <= from <= s.len(),
    ensures
        from <= sub_end(s, from) <= s.len(),
        forall|i: int|
            from <= i < sub_end(s, from) && i + 1 < s.len() ==> !(#[trigger] s[i] == codes::IAC
                && s[i + 1] == codes::SE),
        sub_end(s, from) < s.len() ==> sub_end(s, from) + 1 < s.len() && s[sub_end(s, from)]
            == codes::IAC && s[sub_end(s, from) + 1] == codes::SE,
    decreases s.len() - from,
{
    if from + 1 < s.len() && !(s[from] == codes::IAC && s[from + 1] == codes::SE) {
        lemma_sub_end(s, from + 1);
    }
}

/// Appends `src` to `dst`.
pub fn append_bytes(dst: &mut Vec<u8>, src: &[u8])
    ensures
        final(dst)@ == old(dst)@ + src@,
{
    let n: usize = src.len();
    let mut i: usize = 0;
    while i < n
        invariant
            n == src@.len(),
            0 <= i <= n,
            dst@ == old(dst)@ + src@.subrange(0, i as int),
        decreases n - i,
    {
        dst.push(src[i]);
        i += 1;
        assert(dst@ =~= old(dst)@ + src@.subrange(0, i as int));
    }
    assert(src@.subrange(0, n as int) =~= src@);
}

impl TelnetMessage {
    /// The bytes of this frame on the wire.
    pub fn to_vec(&self) -> (out: Vec<u8>)
        ensures
            out@ == encoded(self@),
    {
        let mut out: Vec<u8> = Vec::new();
        match self {
            TelnetMessage::Data(v) => {
                append_bytes(&mut out, v.as_slice());
                assert(out@ =~= v@);
            },
            TelnetMessage::IAC(code) => {
                out.push(codes::IAC);
                out.push(*code);
                assert(out@ =~= seq![codes::IAC, *code]);
            },
            TelnetMessage::Negotiate(code, op) => {
                out.push(codes::IAC);
                out.push(*code);
                out.push(*op);
                assert(out@ =~= seq![codes::IAC, *code, *op]);
            },
            TelnetMessage::SubNegotiate(code, data) => {
                out.push(codes::IAC);
                out.push(codes::SB);
                out.push(*code);
                append_bytes(&mut out, data.as_slice());
                out.push(codes::IAC);
                out.push(codes::SE);
                assert(out@ =~= seq![codes::IAC, codes::SB, *code] + data@ + seq![
                    codes::IAC,
                    codes::SE,
                ]);
            },
        }
        out
    }

    /// Reads the frame at the head of `src`. Gives the frame and the number of
    /// bytes it took, or `None` where `src` is empty or ends inside a frame.
    pub fn from_bytes(src: &[u8]) -> (r: Option<(TelnetMessage, usize)>)
        ensures
            match r {
                Some((m, n)) => decoded(src@) == Some((m@, n as int)) && 0 < n <= src@.len(),
                None => decoded(src@) is None,
            },
    {
        let len: usize = src.len();
        if len == 0 {
            return None;
        }
        if src[0] != codes::IAC {
            let mut i: usize = 1;
            while i < len && src[i] != codes::IAC
                invariant
                    len == src@.len(),
                    1 <= i <= len,
                    data_run_end(src@, 0) == data_run_end(src@, i as int),
                decreases len - i,
            {
                i += 1;
            }
            let run = slice_to_vec(slice_subrange(src, 0, i));
            return Some((TelnetMessage::Data(run), i));
        }
        if len < 2 {
            return None;
        }
        let cmd: u8 = src[1];
        if cmd == codes::IAC {
            let mut out: Vec<u8> = Vec::new();
            out.push(codes::IAC);
            assert(out@ =~= seq![codes::IAC]);
            Some((TelnetMessage::Data(out), 2))
        } else if cmd == codes::WILL || cmd == codes::WONT || cmd == codes::DO || cmd
            == codes::DONT {
            if len > 2 {
                Some((TelnetMessage::Negotiate(cmd, src[2]), 3))
            } else {
                None
            }
        } else if cmd == codes::SB {
            if len < 5 {
                assert(sub_end(src@, 3) == len) by {
                    reveal_with_fuel(sub_end, 2);
                }
                return None;
            }
            let mut p: usize = 3;
            while p + 1 < len && !(src[p] == codes::IAC && src[p + 1] == codes::SE)
                invariant
                    len == src@.len(),
                    3 <= p < len,
                    sub_end(src@, 3) == sub_end(src@, p as int),
                decreases len - p,
            {
                p += 1;
            }
            if p + 1 < len {
                let payload = slice_to_vec(slice_subrange(src, 3, p));
                Some((TelnetMessage::SubNegotiate(src[2], payload), p + 2))
            } else {
                None
            }
        } else {
            Some((TelnetMessage::IAC(cmd), 2))
        }
    }
}

/// What `from_bytes` reads, `to_vec` writes back: the encoding of a decoded
/// frame is the consumed part of the input, byte for byte. The one exception
/// is the escaped IAC, two bytes on the wire and one in the data frame.
pub proof fn lemma_decode_then_encode(s: Seq<u8>)
    requires
        decoded(s) is Some,
    ensures
        ({
            let (f, n) = decoded(s)->0;
            0 < n <= s.len()
        }),
        ({
            let (f, n) = decoded(s)->0;
            if s[0] == codes::IAC && s[1] == codes::IAC {
                f == Frame::Data(seq![codes::IAC]) && n == 2
            } else {
                encoded(f) == s.subrange(0, n)
            }
        }),
{
    let (f, n) = decoded(s)->0;
    if s[0] != codes::IAC {
        lemma_data_run_end(s, 0);
        reveal_with_fuel(data_run_end, 2);
    } else if s[1] == codes::IAC {
    } else if is_negotiation(s[1]) {
        assert(encoded(f) =~= s.subrange(0, n));
    } else if s[1] == codes::SB {
        lemma_sub_end(s, 3);
        assert(encoded(f) =~= s.subrange(0, n));
    } else {
        assert(encoded(f) =~= s.subrange(0, n));
    }
}

} // verus!
