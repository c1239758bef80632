//! Length-prefixed framing shared by every message channel.
//!
//! A frame is a four-byte big-endian length followed by that many body bytes,
//! so repeated sends on one pipe can always be split apart again.

use vstd::prelude::*;
use vstd::string::StringSliceAdditionalSpecFns;
use vstd::utf8::{decode_utf8, encode_utf8, valid_utf8};

verus! {

/// The four big-endian bytes of `x`.
pub open spec fn be_bytes(x: u32) -> Seq<u8> {
    seq![(x >> 24u32) as u8, (x >> 16u32) as u8, (x >> 8u32) as u8, x as u8]
}

/// The number that four big-endian bytes spell.
pub open spec fn be_value(b: Seq<u8>) -> u32
    recommends
        b.len() == 4,
{
    ((b[0] as u32) << 24u32) | ((b[1] as u32) << 16u32) | ((b[2] as u32) << 8u32) | (b[3] as u32)
}

/// The frame that carries `body`.
pub open spec fn frame(body: Seq<u8>) -> Seq<u8> {
    be_bytes(body.len() as u32) + body
}

/// The body of the first frame of `buf` and the number of bytes that frame
/// takes, when `buf` starts with a whole frame.
pub open spec fn frame_split(buf: Seq<u8>) -> Option<(Seq<u8>, int)> {
    if buf.len() < 4 {
        None
    } else {
        let n = be_value(buf.subrange(0, 4)) as int;
        if 4 + n <= buf.len() {
            Some((buf.subrange(4, 4 + n), 4 + n))
        } else {
            None
        }
    }
}

/// Reading back the bytes of a number gives the number.
pub proof fn lemma_be_round_trip(x: u32)
    ensures
        be_bytes(x).len() == 4,
        be_value(be_bytes(x)) == x,
{
    let b = be_bytes(x);
    assert(b[0] == (x >> 24u32) as u8);
    assert(b[1] == (x >> 16u32) as u8);
    assert(b[2] == (x >> 8u32) as u8);
    assert(b[3] == x as u8);
    assert(((((x >> 24u32) as u8) as u32) << 24u32) | ((((x >> 16u32) as u8) as u32) << 16u32)
        | ((((x >> 8u32) as u8) as u32) << 8u32) | ((x as u8) as u32) == x) by (bit_vector);
}

/// A frame is split off exactly, whatever follows it in the buffer.
pub proof fn lemma_frame_split(body: Seq<u8>, rest: Seq<u8>)
    requires
        body.len() <= u32::MAX,
    ensures
        frame(body).len() == 4 + body.len(),
        frame_split(frame(body) + rest) == Some((body, 4 + body.len() as int)),
{
    let x = body.len() as u32;
    lemma_be_round_trip(x);
    let buf = frame(body) + rest;
    assert(buf.subrange(0, 4) =~= be_bytes(x));
    assert(buf.subrange(4, 4 + body.len() as int) =~= body);
}

/// Appends the big-endian bytes of `x` to `out`.
pub fn push_be_u32(out: &mut Vec<u8>, x: u32)
    ensures
        final(out)@ == old(out)@ + be_bytes(x),
{
    out.push((x >> 24u32) as u8);
    out.push((x >> 16u32) as u8);
    out.push((x >> 8u32) as u8);
    out.push(x as u8);
    assert(final(out)@ =~= old(out)@ + be_bytes(x));
}

/// The number that the four bytes of `b` from `at` spell.
pub fn read_be_u32(b: &[u8], at: usize) -> (r: u32)
    requires
        at + 4 <= b@.len(),
    ensures
        r == be_value(b@.subrange(at as int, at + 4)),
{
    let ghost s = b@.subrange(at as int, at + 4);
    assert(s[0] == b@[at as int] && s[1] == b@[at + 1] && s[2] == b@[at + 2] && s[3] == b@[at + 3]);
    ((b[at] as u32) << 24u32) | ((b[at + 1] as u32) << 16u32) | ((b[at + 2] as u32) << 8u32) | (
    b[at + 3] as u32)
}

/// Appends the bytes of `b` from `start` up to `end` to `out`.
pub fn extend_from_range(out: &mut Vec<u8>, b: &[u8], start: usize, end: usize)
    requires
        start <= end <= b@.len(),
    ensures
        final(out)@ == old(out)@ + b@.subrange(start as int, end as int),
{
    let mut i: usize = start;
    while i < end
        invariant
            start <= i <= end <= b@.len(),
            out@ == old(out)@ + b@.subrange(start as int, i as int),
        decreases end - i,
    {
        out.push(b[i]);
        i = i + 1;
        assert(out@ =~= old(out)@ + b@.subrange(start as int, i as int));
    }
}

/// Wraps `body` in a frame.
pub fn encode_frame(body: &[u8]) -> (r: Vec<u8>)
    requires
        body@.len() <= u32::MAX,
    ensures
        r@ == frame(body@),
{
    let mut out: Vec<u8> = Vec::new();
    push_be_u32(&mut out, body.len() as u32);
    extend_from_range(&mut out, body, 0, body.len());
    assert(body@.subrange(0, body@.len() as int) =~= body@);
    out
}

/// Splits the first frame off `buf`: its body and the number of bytes it took,
/// or `None` while `buf` does not yet hold a whole frame.
pub fn split_frame(buf: &[u8]) -> (r: Option<(Vec<u8>, usize)>)
    ensures
        match r {
            Some((body, n)) => frame_split(buf@) == Some((body@, n as int)),
            None => frame_split(buf@) is None,
        },
{
    if buf.len() < 4 {
        return None;
    }
    let n = read_be_u32(buf, 0);
    if (n as usize) > buf.len() - 4 {
        return None;
    }
    let end = 4 + n as usize;
    let mut body: Vec<u8> = Vec::new();
    extend_from_range(&mut body, buf, 4, end);
    assert(body@ =~= buf@.subrange(4, end as int));
    Some((body, end))
}

/// Appends the UTF-8 bytes of `s` to `out`.
pub fn push_text(out: &mut Vec<u8>, s: &str)
    ensures
        final(out)@ == old(out)@ + encode_utf8(s@),
{
    let b = s.as_bytes();
    extend_from_range(out, b, 0, b.len());
    assert(b@.subrange(0, b@.len() as int) =~= b@);
}

/// Relies on std::str::from_utf8: it accepts exactly the well-formed UTF-8
/// byte sequences and yields the characters they encode.
#[verifier::external_body]
fn utf8_str(b: &[u8]) -> (r: Option<&str>)
    ensures
        r is Some <==> valid_utf8(b@),
        r matches Some(s) ==> s@ == decode_utf8(b@),
{
    match std::str::from_utf8(b) {
        Ok(s) => Some(s),
        Err(_) => None,
    }
}

/// The text that the bytes of `b` from `start` on encode, when they are
/// well-formed UTF-8.
pub fn text_from(b: &[u8], start: usize) -> (r: Option<String>)
    requires
        start <= b@.len(),
    ensures
        r is Some <==> valid_utf8(b@.subrange(start as int, b@.len() as int)),
        r matches Some(s) ==> s@ == decode_utf8(b@.subrange(start as int, b@.len() as int)),
{
    let mut tail: Vec<u8> = Vec::new();
    extend_from_range(&mut tail, b, start, b.len());
    assert(tail@ =~= b@.subrange(start as int, b@.len() as int));
    match utf8_str(tail.as_slice()) {
        Some(s) => Some(s.to_owned()),
        None => None,
    }
}

} // verus!
