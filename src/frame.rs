//! Length-prefixed frames: a 4-byte little-endian length `N`, then exactly
//! `N` bytes of payload. The codec keeps no state between frames.

use vstd::prelude::*;

use crate::error::Error;

verus! {

/// Bytes in a frame's length prefix.
pub const HEADER_LEN: usize = 4;

/// The largest payload this implementation sends or accepts (16 MiB).
pub const MAX_FRAME_LEN: usize = 16 * 1024 * 1024;

/// The little-endian bytes of `n`.
pub open spec fn le_bytes(n: u32) -> Seq<u8> {
    seq![(n & 0xff) as u8, ((n >> 8u32) & 0xff) as u8, ((n >> 16u32) & 0xff) as u8, ((n >> 24u32) & 0xff) as u8]
}

/// The number whose little-endian bytes are `b0 b1 b2 b3`.
pub open spec fn le_value(b0: u8, b1: u8, b2: u8, b3: u8) -> u32 {
    (b0 as u32) | ((b1 as u32) << 8u32) | ((b2 as u32) << 16u32) | ((b3 as u32) << 24u32)
}

/// The length a prefix announces; `b` holds at least the four prefix bytes.
pub open spec fn prefix_value(b: Seq<u8>) -> u32 {
    le_value(b[0], b[1], b[2], b[3])
}

/// The frame that carries `payload`.
pub open spec fn frame_of(payload: Seq<u8>) -> Seq<u8> {
    le_bytes(payload.len() as u32) + payload
}

/// The payload of the frame at the start of `bytes`, when all of it is there.
pub open spec fn parse_frame(bytes: Seq<u8>) -> Option<Seq<u8>> {
    if bytes.len() < HEADER_LEN {
        None
    } else if bytes.len() < HEADER_LEN + prefix_value(bytes) {
        None
    } else {
        Some(bytes.subrange(HEADER_LEN as int, HEADER_LEN + prefix_value(bytes)))
    }
}

proof fn lemma_le_round_trip(n: u32)
    ensures
        le_value(
            (n & 0xff) as u8,
            ((n >> 8u32) & 0xff) as u8,
            ((n >> 16u32) & 0xff) as u8,
            ((n >> 24u32) & 0xff) as u8,
        ) == n,
{
    assert(((n & 0xff) as u8 as u32) | ((((n >> 8u32) & 0xff) as u8 as u32) << 8u32) | ((((n
        >> 16u32) & 0xff) as u8 as u32) << 16u32) | ((((n >> 24u32) & 0xff) as u8 as u32) << 24u32)
        == n) by (bit_vector);
}

/// Reading a frame gives back exactly the payload it was written from, and
/// its prefix announces exactly the payload's length.
pub proof fn lemma_frame_round_trip(payload: Seq<u8>)
    requires
        payload.len() <= MAX_FRAME_LEN,
    ensures
        frame_of(payload).len() == HEADER_LEN + payload.len(),
        prefix_value(frame_of(payload)) == payload.len(),
        parse_frame(frame_of(payload)) == Some(payload),
{
    let n = payload.len() as u32;
    lemma_le_round_trip(n);
    let f = frame_of(payload);
    assert(f[0] == (n & 0xff) as u8);
    assert(f[1] == ((n >> 8u32) & 0xff) as u8);
    assert(f[2] == ((n >> 16u32) & 0xff) as u8);
    assert(f[3] == ((n >> 24u32) & 0xff) as u8);
    assert(f.subrange(4, 4 + payload.len() as int) =~= payload);
}

/// The four prefix bytes for a payload of `n` bytes.
pub fn encode_header(n: u32) -> (r: Vec<u8>)
    ensures
        r@ == le_bytes(n),
{
    let mut r: Vec<u8> = Vec::new();
    r.push((n & 0xff) as u8);
    r.push(((n >> 8) & 0xff) as u8);
    r.push(((n >> 16) & 0xff) as u8);
    r.push(((n >> 24) & 0xff) as u8);
    assert(r@ =~= le_bytes(n));
    r
}

/// Frames a payload; a payload over the size cap is a protocol error.
pub fn encode_frame(payload: &[u8]) -> (r: Result<Vec<u8>, Error>)
    ensures
        r is Ok <==> payload@.len() <= MAX_FRAME_LEN,
        r is Ok ==> r->Ok_0@ == frame_of(payload@),
        r is Err ==> r->Err_0 is Protocol,
{
    if payload.len() > MAX_FRAME_LEN {
        return Err(Error::Protocol("frame payload exceeds the size limit".to_owned()));
    }
    let mut out = encode_header(payload.len() as u32);
    let ghost head = out@;
    let mut i: usize = 0;
    while i < payload.len()
        invariant
            i <= payload@.len(),
            out@ == head + payload@.subrange(0, i as int),
        decreases payload.len() - i,
    {
        out.push(payload[i]);
        assert(payload@.subrange(0, i + 1) =~= payload@.subrange(0, i as int).push(payload@[i as int]));
        i = i + 1;
    }
    assert(payload@.subrange(0, i as int) =~= payload@);
    Ok(out)
}

/// The payload length announced by a prefix. Fewer than four bytes is a short
/// read; a length over the size cap is a protocol error.
pub fn decode_header(header: &[u8]) -> (r: Result<usize, Error>)
    ensures
        header@.len() < HEADER_LEN ==> r is Err && r->Err_0 is Io,
        header@.len() >= HEADER_LEN && prefix_value(header@) > MAX_FRAME_LEN ==> r is Err
            && r->Err_0 is Protocol,
        header@.len() >= HEADER_LEN && prefix_value(header@) <= MAX_FRAME_LEN ==> r == Ok::<
            usize,
            Error,
        >(prefix_value(header@) as usize),
{
    if header.len() < HEADER_LEN {
        return Err(Error::Io("stream closed inside a frame header".to_owned()));
    }
    let n: u32 = (header[0] as u32) | ((header[1] as u32) << 8) | ((header[2] as u32) << 16) | ((
    header[3] as u32) << 24);
    if n as usize > MAX_FRAME_LEN {
        return Err(Error::Protocol("frame payload exceeds the size limit".to_owned()));
    }
    Ok(n as usize)
}

/// Reads the frame at the start of `bytes`, everything the peer sent before
/// closing. Returns the payload and the number of bytes the frame took. Bytes
/// missing from the prefix or the payload are a short read.
pub fn decode_frame(bytes: &[u8]) -> (r: Result<(Vec<u8>, usize), Error>)
    ensures
        r is Ok <==> parse_frame(bytes@) is Some && prefix_value(bytes@) <= MAX_FRAME_LEN,
        r is Ok ==> Some(r->Ok_0.0@) == parse_frame(bytes@) && r->Ok_0.1 == HEADER_LEN
            + prefix_value(bytes@),
        bytes@.len() >= HEADER_LEN && prefix_value(bytes@) > MAX_FRAME_LEN ==> r is Err
            && r->Err_0 is Protocol,
        parse_frame(bytes@) is None && !(bytes@.len() >= HEADER_LEN && prefix_value(bytes@)
            > MAX_FRAME_LEN) ==> r is Err && r->Err_0 is Io,
{
    let n = decode_header(bytes)?;
    if bytes.len() - HEADER_LEN < n {
        return Err(Error::Io("stream closed inside a frame payload".to_owned()));
    }
    let mut out: Vec<u8> = Vec::new();
    let mut i: usize = 0;
    while i < n
        invariant
            i <= n,
            HEADER_LEN + n <= bytes.len(),
            out@ == bytes@.subrange(HEADER_LEN as int, HEADER_LEN + i),
        decreases n - i,
    {
        out.push(bytes[HEADER_LEN + i]);
        assert(bytes@.subrange(HEADER_LEN as int, HEADER_LEN + i + 1) =~= bytes@.subrange(
            HEADER_LEN as int,
            HEADER_LEN + i,
        ).push(bytes@[HEADER_LEN + i]));
        i = i + 1;
    }
    Ok((out, HEADER_LEN + n))
}

} // verus!
