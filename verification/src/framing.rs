//! Length-prefixed frame codec: each message travels as a 4-byte
//! little-endian length followed by exactly that many payload bytes.
//! A stream that ends before a whole frame is an orderly end of session,
//! never a decode error.
use vstd::prelude::*;

use crate::bytes::append_bytes;

verus! {

/// Number of bytes in a frame's length prefix.
pub const LEN_PREFIX_BYTES: usize = 4;

/// The 4-byte little-endian encoding of a message length.
pub open spec fn len_prefix(n: nat) -> Seq<u8> {
    seq![
        (n % 256) as u8,
        ((n / 256) % 256) as u8,
        ((n / 65536) % 256) as u8,
        ((n / 16777216) % 256) as u8,
    ]
}

/// The length a 4-byte prefix declares.
pub open spec fn prefix_val(b: Seq<u8>) -> nat
    recommends
        b.len() == 4,
{
    (b[0] + 256 * b[1] + 65536 * b[2] + 16777216 * b[3]) as nat
}

/// The full wire form of one message: its length prefix, then the payload.
pub open spec fn frame_of(payload: Seq<u8>) -> Seq<u8> {
    len_prefix(payload.len()) + payload
}

/// What reading one frame from `stream` at offset `at` yields: the payload
/// and the offset after it, or nothing when the stream ends first.
pub open spec fn read_frame(stream: Seq<u8>, at: int) -> Option<(Seq<u8>, int)> {
    if 0 <= at && at + 4 <= stream.len() {
        let len = prefix_val(stream.subrange(at, at + 4)) as int;
        if at + 4 + len <= stream.len() {
            Some((stream.subrange(at + 4, at + 4 + len), at + 4 + len))
        } else {
            None
        }
    } else {
        None
    }
}

/// Outcome of reading one frame from a buffered stream.
pub enum FrameRead {
    /// A whole frame was present: its payload, and the position just after it.
    Message { payload: Vec<u8>, next: usize },
    /// The stream ended before a whole frame could be read: orderly shutdown.
    EndOfStream,
}

/// Encodes a message length as its 4-byte prefix.
pub fn encode_prefix(len: u32) -> (r: Vec<u8>)
    ensures
        r@ == len_prefix(len as nat),
{
    let mut r: Vec<u8> = Vec::new();
    r.push((len % 256) as u8);
    r.push((len / 256 % 256) as u8);
    r.push((len / 65536 % 256) as u8);
    r.push((len / 16777216 % 256) as u8);
    proof {
        assert(r@ =~= len_prefix(len as nat));
    }
    r
}

/// Reads the length a 4-byte prefix declares.
pub fn decode_prefix(b: &Vec<u8>) -> (r: u32)
    requires
        b@.len() == 4,
    ensures
        r as nat == prefix_val(b@),
{
    let b0 = b[0] as u32;
    let b1 = b[1] as u32;
    let b2 = b[2] as u32;
    let b3 = b[3] as u32;
    b0 + 256 * b1 + 65536 * b2 + 16777216 * b3
}

/// Encodes one message as a frame: length prefix, then the payload.
pub fn encode_frame(payload: &Vec<u8>) -> (r: Vec<u8>)
    requires
        payload@.len() <= u32::MAX,
    ensures
        r@ == frame_of(payload@),
{
    let len: u32 = payload.len() as u32;
    let mut r = encode_prefix(len);
    append_bytes(&mut r, payload);
    r
}

/// Reads one frame out of a buffered stream, starting at `at`. A stream that
/// ends before the prefix, or before the declared number of payload bytes,
/// reads as `EndOfStream`.
pub fn read_frame_at(stream: &Vec<u8>, at: usize) -> (r: FrameRead)
    ensures
        match r {
            FrameRead::Message { payload, next } => read_frame(stream@, at as int) == Some(
                (payload@, next as int),
            ),
            FrameRead::EndOfStream => read_frame(stream@, at as int) is None,
        },
{
    if stream.len() < LEN_PREFIX_BYTES || at > stream.len() - LEN_PREFIX_BYTES {
        return FrameRead::EndOfStream;
    }
    let mut prefix: Vec<u8> = Vec::new();
    prefix.push(stream[at]);
    prefix.push(stream[at + 1]);
    prefix.push(stream[at + 2]);
    prefix.push(stream[at + 3]);
    proof {
        assert(prefix@ =~= stream@.subrange(at as int, at as int + 4));
    }
    let len = decode_prefix(&prefix) as usize;
    let body_start = at + LEN_PREFIX_BYTES;
    let rem = stream.len() - body_start;
    if len > rem {
        return FrameRead::EndOfStream;
    }
    let mut payload: Vec<u8> = Vec::new();
    let mut i: usize = 0;
    while i < len
        invariant
            i <= len,
            body_start + len <= stream@.len(),
            stream@.len() <= usize::MAX,
            payload@ == stream@.subrange(body_start as int, body_start as int + i as int),
        decreases len - i,
    {
        payload.push(stream[body_start + i]);
        i = i + 1;
        proof {
            assert(payload@ =~= stream@.subrange(
                body_start as int,
                body_start as int + i as int,
            ));
        }
    }
    FrameRead::Message { payload, next: body_start + len }
}

/// Reading back a 4-byte prefix yields the length it was made from.
pub proof fn lemma_prefix_round_trip(n: nat)
    requires
        n <= u32::MAX,
    ensures
        prefix_val(len_prefix(n)) == n,
{
    let x = n as u32;
    assert(x % 256 + 256 * (x / 256 % 256) + 65536 * (x / 65536 % 256) + 16777216 * (x
        / 16777216 % 256) == x) by (bit_vector);
    assert(len_prefix(n)[0] == (n % 256) as u8);
}

/// Law: a frame decodes back to exactly the payload it was encoded from,
/// consuming exactly the frame's bytes.
pub proof fn lemma_frame_round_trip(payload: Seq<u8>)
    requires
        payload.len() <= u32::MAX,
    ensures
        read_frame(frame_of(payload), 0) == Some((payload, 4 + payload.len() as int)),
{
    let f = frame_of(payload);
    assert(f.subrange(0, 4) =~= len_prefix(payload.len()));
    lemma_prefix_round_trip(payload.len());
    assert(f.subrange(4, 4 + payload.len() as int) =~= payload);
}

/// Law: no proper prefix of a frame decodes to a message; a truncated stream
/// always reads as end of stream.
pub proof fn lemma_truncated_frame_reads_as_end_of_stream(payload: Seq<u8>, k: int)
    requires
        payload.len() <= u32::MAX,
        0 <= k < frame_of(payload).len(),
    ensures
        read_frame(frame_of(payload).take(k), 0) is None,
{
    let f = frame_of(payload);
    let t = f.take(k);
    if k >= 4 {
        assert(t.subrange(0, 4) =~= len_prefix(payload.len()));
        lemma_prefix_round_trip(payload.len());
        assert(t.len() < 4 + payload.len());
    }
}

} // verus!
