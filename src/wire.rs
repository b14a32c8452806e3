use vstd::prelude::*;
use vstd::slice::slice_to_vec;
use vstd::utf8::*;

verus! {

/// How a payload is put on the wire.
#[derive(Clone, Copy, Debug, PartialEq, Eq)]
pub enum Framing {
    /// A command: the payload followed by one CR LF.
    Line,
    /// Raw bytes: the payload as it is, the caller frames it.
    Raw,
}

/// The line terminator of the remote protocol: CR LF.
pub open spec fn line_terminator() -> Seq<u8> {
    seq![13u8, 10u8]
}

/// The bytes written for `payload` under `framing`.
pub open spec fn framed(payload: Seq<u8>, framing: Framing) -> Seq<u8> {
    match framing {
        Framing::Line => payload + line_terminator(),
        Framing::Raw => payload,
    }
}

/// The bytes that a send of the text `payload` writes: its UTF-8 bytes, with
/// one CR LF after them for a command and nothing added for a raw send.
pub fn frame(payload: &str, framing: Framing) -> (r: Vec<u8>)
    ensures
        r@ == framed(encode_utf8(payload@), framing),
{
    let mut out = slice_to_vec(payload.as_bytes());
    match framing {
        Framing::Line => {
            out.push(13u8);
            out.push(10u8);
            assert(out@ =~= framed(encode_utf8(payload@), framing));
        },
        Framing::Raw => {},
    }
    out
}

/// A command goes on the wire as its bytes verbatim followed by exactly one
/// CR LF; a raw payload goes on the wire exactly as given.
pub proof fn lemma_framing_adds_only_terminator(payload: Seq<u8>)
    ensures
        framed(payload, Framing::Line).len() == payload.len() + 2 as int,
        framed(payload, Framing::Line).subrange(0, payload.len() as int) == payload,
        framed(payload, Framing::Line).subrange(
            payload.len() as int,
            payload.len() + 2 as int,
        ) == line_terminator(),
        framed(payload, Framing::Raw) == payload,
{
    let f = framed(payload, Framing::Line);
    assert(f.subrange(0, payload.len() as int) =~= payload);
    assert(f.subrange(payload.len() as int, payload.len() + 2 as int) =~= line_terminator());
}

} // verus!
