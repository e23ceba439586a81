//! Wire framing: length-prefixed requests and status-prefixed replies.
//!
//! A request frame is a four-byte big-endian length followed by the command
//! bytes. A response frame is one status byte (`0x01` success, `0x00`
//! failure), an eight-byte big-endian payload length, and exactly that many
//! payload bytes. All multi-byte integers on the wire are big-endian.

use vstd::prelude::*;
use vstd::slice::{slice_subrange, slice_to_vec};

verus! {

/// The four big-endian bytes of `n`, most significant first.
pub open spec fn spec_u32_be(n: u32) -> Seq<u8> {
    seq![
        ((n >> 24) & 0xff) as u8,
        ((n >> 16) & 0xff) as u8,
        ((n >> 8) & 0xff) as u8,
        (n & 0xff) as u8,
    ]
}

/// The eight big-endian bytes of `n`, most significant first.
pub open spec fn spec_u64_be(n: u64) -> Seq<u8> {
    seq![
        ((n >> 56) & 0xff) as u8,
        ((n >> 48) & 0xff) as u8,
        ((n >> 40) & 0xff) as u8,
        ((n >> 32) & 0xff) as u8,
        ((n >> 24) & 0xff) as u8,
        ((n >> 16) & 0xff) as u8,
        ((n >> 8) & 0xff) as u8,
        (n & 0xff) as u8,
    ]
}

/// The value carried by eight big-endian bytes.
pub open spec fn spec_u64_of_be(s: Seq<u8>) -> u64
    recommends
        s.len() == 8,
{
    ((s[0] as u64) << 56) | ((s[1] as u64) << 48) | ((s[2] as u64) << 40) | ((s[3] as u64) << 32)
        | ((s[4] as u64) << 24) | ((s[5] as u64) << 16) | ((s[6] as u64) << 8) | (s[7] as u64)
}

/// Reading back the eight big-endian bytes of `n` gives `n`.
pub proof fn lemma_u64_be_round_trip(n: u64)
    ensures
        spec_u64_of_be(spec_u64_be(n)) == n,
{
    assert(((((((n >> 56) & 0xff) as u8) as u64) << 56) | (((((n >> 48) & 0xff) as u8) as u64)
        << 48) | (((((n >> 40) & 0xff) as u8) as u64) << 40) | (((((n >> 32) & 0xff) as u8) as u64)
        << 32) | (((((n >> 24) & 0xff) as u8) as u64) << 24) | (((((n >> 16) & 0xff) as u8) as u64)
        << 16) | (((((n >> 8) & 0xff) as u8) as u64) << 8) | (((n & 0xff) as u8) as u64)) == n)
        by (bit_vector);
}

/// The four big-endian bytes of `n`.
pub fn u32_be_bytes(n: u32) -> (r: Vec<u8>)
    ensures
        r@ == spec_u32_be(n),
{
    let mut v: Vec<u8> = Vec::new();
    v.push(((n >> 24) & 0xff) as u8);
    v.push(((n >> 16) & 0xff) as u8);
    v.push(((n >> 8) & 0xff) as u8);
    v.push((n & 0xff) as u8);
    proof {
        assert(v@ =~= spec_u32_be(n));
    }
    v
}

/// The eight big-endian bytes of `n`.
pub fn u64_be_bytes(n: u64) -> (r: Vec<u8>)
    ensures
        r@ == spec_u64_be(n),
{
    let mut v: Vec<u8> = Vec::new();
    v.push(((n >> 56) & 0xff) as u8);
    v.push(((n >> 48) & 0xff) as u8);
    v.push(((n >> 40) & 0xff) as u8);
    v.push(((n >> 32) & 0xff) as u8);
    v.push(((n >> 24) & 0xff) as u8);
    v.push(((n >> 16) & 0xff) as u8);
    v.push(((n >> 8) & 0xff) as u8);
    v.push((n & 0xff) as u8);
    proof {
        assert(v@ =~= spec_u64_be(n));
    }
    v
}

/// The value carried by eight big-endian bytes.
pub fn u64_from_be(b: &[u8]) -> (r: u64)
    requires
        b@.len() == 8,
    ensures
        r == spec_u64_of_be(b@),
{
    ((b[0] as u64) << 56) | ((b[1] as u64) << 48) | ((b[2] as u64) << 40) | ((b[3] as u64) << 32)
        | ((b[4] as u64) << 24) | ((b[5] as u64) << 16) | ((b[6] as u64) << 8) | (b[7] as u64)
}

/// A request frame: the big-endian length of the command, then the command.
pub open spec fn spec_request_frame(command: Seq<u8>) -> Seq<u8>
    recommends
        command.len() <= u32::MAX,
{
    spec_u32_be(command.len() as u32) + command
}

/// Frames one command for the wire: four length bytes, then the command
/// bytes. Text commands carry their trailing newline inside the counted
/// bytes; binary commands carry none.
pub fn encode_request(command: &[u8]) -> (r: Vec<u8>)
    requires
        command@.len() <= u32::MAX,
    ensures
        r@ == spec_request_frame(command@),
        r@.len() == 4 + command@.len(),
{
    let mut v = u32_be_bytes(command.len() as u32);
    let mut body = slice_to_vec(command);
    v.append(&mut body);
    v
}

/// Whether a status byte reads as success. Peers emit exactly `0x01` for
/// success and `0x00` for failure; this reader is strict and takes any byte
/// other than `0x01` as failure.
pub open spec fn spec_status_success(b: u8) -> bool {
    b == 1
}

/// The payload length a response buffer declares in its header bytes.
pub open spec fn spec_declared_len(buf: Seq<u8>) -> u64
    recommends
        buf.len() >= 9,
{
    spec_u64_of_be(buf.subrange(1, 9))
}

/// Whether a buffer holds at least one whole response frame.
pub open spec fn spec_frame_complete(buf: Seq<u8>) -> bool {
    buf.len() >= 9 && buf.len() - 9 >= spec_declared_len(buf)
}

/// How many bytes the first response frame of a buffer spans.
pub open spec fn spec_frame_size(buf: Seq<u8>) -> int
    recommends
        buf.len() >= 9,
{
    9 + spec_declared_len(buf)
}

/// The outcome of reading one response frame from a buffer.
pub enum FrameParse {
    /// The buffer ends before one whole frame: more bytes are needed. A
    /// stream that ends in this state was cut short and is a connection
    /// failure, never a partial result.
    Incomplete,
    /// One whole frame. `consumed` is how many bytes it spanned, so the
    /// next frame starts exactly `consumed` bytes in.
    Frame { success: bool, payload: Vec<u8>, consumed: usize },
}

/// Reads one response frame from the front of `buf`: the status byte, then
/// the declared number of payload bytes. Returns `Incomplete` when fewer
/// bytes than declared are present, and otherwise exactly the declared
/// payload together with the frame's span.
pub fn parse_response(buf: &[u8]) -> (r: FrameParse)
    ensures
        r is Frame <==> spec_frame_complete(buf@),
        r matches FrameParse::Frame { success, payload, consumed } ==> {
            &&& success == spec_status_success(buf@[0])
            &&& payload@ == buf@.subrange(9, spec_frame_size(buf@))
            &&& consumed == spec_frame_size(buf@)
        },
{
    if buf.len() < 9 {
        return FrameParse::Incomplete;
    }
    let declared: u64 = u64_from_be(slice_subrange(buf, 1, 9));
    if ((buf.len() - 9) as u64) < declared {
        return FrameParse::Incomplete;
    }
    let plen: usize = declared as usize;
    let success = *vstd::slice::slice_index_get(buf, 0) == 1;
    let payload = slice_to_vec(slice_subrange(buf, 9, 9 + plen));
    FrameParse::Frame { success, payload, consumed: 9 + plen }
}

/// One response frame as a peer emits it: `0x01` or `0x00`, the payload
/// length in eight big-endian bytes, then the payload.
pub open spec fn spec_response_frame(success: bool, payload: Seq<u8>) -> Seq<u8>
    recommends
        payload.len() <= u64::MAX,
{
    seq![if success { 1u8 } else { 0u8 }] + spec_u64_be(payload.len() as u64) + payload
}

/// Frames one reply for the wire, emitting exactly `0x01` for success and
/// `0x00` for failure.
pub fn encode_response(success: bool, payload: &[u8]) -> (r: Vec<u8>)
    ensures
        r@ == spec_response_frame(success, payload@),
        r@.len() == 9 + payload@.len(),
{
    let mut v: Vec<u8> = Vec::new();
    v.push(if success { 1u8 } else { 0u8 });
    let mut len_bytes = u64_be_bytes(payload.len() as u64);
    v.append(&mut len_bytes);
    let mut body = slice_to_vec(payload);
    v.append(&mut body);
    proof {
        assert(v@ =~= spec_response_frame(success, payload@));
    }
    v
}

/// A framed reply reads back as it was written: the frame is complete, spans
/// the whole buffer, and yields the status and payload it was built from.
pub proof fn lemma_response_round_trip(success: bool, payload: Seq<u8>)
    requires
        payload.len() <= u64::MAX,
    ensures
        spec_frame_complete(spec_response_frame(success, payload)),
        spec_status_success(spec_response_frame(success, payload)[0]) == success,
        spec_response_frame(success, payload).subrange(
            9,
            spec_frame_size(spec_response_frame(success, payload)),
        ) == payload,
        spec_frame_size(spec_response_frame(success, payload)) == spec_response_frame(
            success,
            payload,
        ).len(),
{
    let frame = spec_response_frame(success, payload);
    assert(frame.subrange(1, 9) =~= spec_u64_be(payload.len() as u64));
    lemma_u64_be_round_trip(payload.len() as u64);
    assert(spec_declared_len(frame) == payload.len());
    assert(frame.subrange(9, spec_frame_size(frame)) =~= payload);
}

} // verus!
