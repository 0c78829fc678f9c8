//! Framing of protocol messages: a four-byte little-endian length, then the
//! payload.

use vstd::prelude::*;

verus! {

/// Number of bytes in the length prefix.
pub const HEADER_LEN: usize = 4;

/// Payload limit recommended for a daemon that faces untrusted peers: 64 MiB.
pub const MAX_FRAME_LEN: u32 = 67_108_864;

/// Payload limit that admits every length the prefix can express.
pub const NO_FRAME_LIMIT: u32 = 0xFFFF_FFFF;

/// Why a frame could not be produced or read.
#[derive(Clone, Copy, Debug, PartialEq, Eq, Structural)]
pub enum FrameError {
    /// The bytes end before the header or the declared payload is complete.
    Truncated,
    /// The payload is longer than the limit in force.
    TooLarge,
}

/// A payload taken off the front of a byte stream.
#[derive(Debug, PartialEq, Eq)]
pub struct Frame {
    /// The payload, without its length prefix.
    pub payload: Vec<u8>,
    /// How many bytes of the stream the frame occupied, prefix included.
    pub consumed: usize,
}

/// The four bytes of `n`, least significant first.
pub open spec fn le_bytes(n: u32) -> Seq<u8> {
    seq![
        (n % 256) as u8,
        (n / 256 % 256) as u8,
        (n / 65536 % 256) as u8,
        (n / 16777216) as u8,
    ]
}

/// The number whose little-endian bytes open `bytes`.
pub open spec fn le_value(bytes: Seq<u8>) -> int
    recommends
        bytes.len() >= 4,
{
    bytes[0] + 256 * bytes[1] + 65536 * bytes[2] + 16777216 * bytes[3]
}

/// The frame that carries `payload`.
pub open spec fn frame_of(payload: Seq<u8>) -> Seq<u8>
    recommends
        payload.len() <= u32::MAX,
{
    le_bytes(payload.len() as u32) + payload
}

/// What reading one frame off the front of `bytes` yields under the limit
/// `max_len`: the payload and the number of bytes used, or the error.
pub open spec fn frame_at(bytes: Seq<u8>, max_len: u32) -> Result<(Seq<u8>, int), FrameError> {
    if bytes.len() < 4 {
        Err(FrameError::Truncated)
    } else if le_value(bytes) > max_len {
        Err(FrameError::TooLarge)
    } else if bytes.len() < 4 + le_value(bytes) {
        Err(FrameError::Truncated)
    } else {
        Ok((bytes.subrange(4, 4 + le_value(bytes)), 4 + le_value(bytes)))
    }
}

/// Reading the prefix written for `n` gives `n` back.
pub proof fn lemma_le_round_trip(n: u32)
    ensures
        le_bytes(n).len() == 4,
        le_value(le_bytes(n)) == n,
{
}

/// Writing the value of four bytes gives the same four bytes.
pub proof fn lemma_le_bytes_of_value(bytes: Seq<u8>)
    requires
        bytes.len() == 4,
    ensures
        0 <= le_value(bytes) <= u32::MAX,
        le_bytes(le_value(bytes) as u32) == bytes,
{
    let n = le_value(bytes);
    let upper = bytes[1] + 256 * bytes[2] + 65536 * bytes[3];
    let top = bytes[2] + 256 * bytes[3];
    assert(n == 256 * upper + bytes[0] && upper == 256 * top + bytes[1]);
    assert(n / 256 == upper && n % 256 == bytes[0] as int);
    assert(n / 65536 == top && upper % 256 == bytes[1] as int);
    assert(n / 16777216 == bytes[3] as int && top % 256 == bytes[2] as int);
    assert(le_bytes(n as u32) =~= bytes);
}

/// Rebuilds the length from the header bytes.
fn read_len(bytes: &[u8]) -> (n: u32)
    requires
        bytes@.len() >= 4,
    ensures
        n == le_value(bytes@),
{
    let b0: u32 = bytes[0] as u32;
    let b1: u32 = bytes[1] as u32;
    let b2: u32 = bytes[2] as u32;
    let b3: u32 = bytes[3] as u32;
    b0 + 256 * b1 + 65536 * b2 + 16777216 * b3
}

/// The length prefix for a payload of `len` bytes.
///
/// Fails with `TooLarge` exactly when `len` exceeds `max_len`. A caller that
/// writes the prefix and then the payload has written `frame_of(payload)`.
pub fn frame_header(len: usize, max_len: u32) -> (out: Result<[u8; 4], FrameError>)
    ensures
        len > max_len ==> out == Err::<[u8; 4], FrameError>(FrameError::TooLarge),
        len <= max_len ==> out is Ok && out->Ok_0@ == le_bytes(len as u32),
{
    if len > max_len as usize {
        return Err(FrameError::TooLarge);
    }
    let n: u32 = len as u32;
    let header: [u8; 4] = [
        (n % 256) as u8,
        (n / 256 % 256) as u8,
        (n / 65536 % 256) as u8,
        (n / 16777216) as u8,
    ];
    Ok(header)
}

/// The payload length that a length prefix declares.
///
/// Fails with `TooLarge` exactly when the declared length exceeds `max_len`.
/// A caller that has read the prefix reads this many bytes next.
pub fn payload_len(header: &[u8; 4], max_len: u32) -> (out: Result<usize, FrameError>)
    ensures
        le_value(header@) > max_len ==> out == Err::<usize, FrameError>(FrameError::TooLarge),
        le_value(header@) <= max_len ==> out == Ok::<usize, FrameError>(
            le_value(header@) as usize,
        ),
{
    let n: u32 = read_len(header.as_slice());
    if n > max_len {
        Err(FrameError::TooLarge)
    } else {
        Ok(n as usize)
    }
}

/// Wraps `payload` in a frame.
///
/// Fails with `TooLarge` exactly when the payload is longer than `max_len`;
/// otherwise the result is the four length bytes followed by the payload.
pub fn encode_frame(payload: &[u8], max_len: u32) -> (out: Result<Vec<u8>, FrameError>)
    ensures
        payload@.len() > max_len ==> out == Err::<Vec<u8>, FrameError>(FrameError::TooLarge),
        payload@.len() <= max_len ==> out is Ok && out->Ok_0@ == frame_of(payload@),
{
    if payload.len() > max_len as usize {
        return Err(FrameError::TooLarge);
    }
    let n: u32 = payload.len() as u32;
    let mut out: Vec<u8> = Vec::new();
    out.push((n % 256) as u8);
    out.push((n / 256 % 256) as u8);
    out.push((n / 65536 % 256) as u8);
    out.push((n / 16777216) as u8);
    let mut i: usize = 0;
    while i < payload.len()
        invariant
            i <= payload@.len(),
            out@ =~= le_bytes(n) + payload@.subrange(0, i as int),
        decreases payload@.len() - i,
    {
        out.push(payload[i]);
        i += 1;
    }
    Ok(out)
}

/// Reads one frame off the front of `bytes`.
///
/// `Truncated` comes back when fewer than four bytes are present or fewer
/// payload bytes than the prefix declares; `TooLarge` when the declared length
/// exceeds `max_len`, whether or not the payload has arrived. Bytes behind the
/// frame are left alone: `consumed` says where the next frame starts.
pub fn decode_frame(bytes: &[u8], max_len: u32) -> (out: Result<Frame, FrameError>)
    ensures
        match out {
            Ok(f) => frame_at(bytes@, max_len) == Ok::<(Seq<u8>, int), FrameError>(
                (f.payload@, f.consumed as int),
            ),
            Err(e) => frame_at(bytes@, max_len) == Err::<(Seq<u8>, int), FrameError>(e),
        },
{
    if bytes.len() < HEADER_LEN {
        return Err(FrameError::Truncated);
    }
    let n: u32 = read_len(bytes);
    if n > max_len {
        return Err(FrameError::TooLarge);
    }
    if bytes.len() - HEADER_LEN < n as usize {
        return Err(FrameError::Truncated);
    }
    let end: usize = HEADER_LEN + n as usize;
    let mut payload: Vec<u8> = Vec::new();
    let mut i: usize = HEADER_LEN;
    while i < end
        invariant
            4 <= i <= end <= bytes@.len(),
            payload@ =~= bytes@.subrange(4, i as int),
        decreases end - i,
    {
        payload.push(bytes[i]);
        i += 1;
    }
    Ok(Frame { payload, consumed: end })
}

/// A frame that was written is read back as it was: the payload comes out
/// unchanged, whatever bytes follow the frame in the stream, and `consumed`
/// points just behind it.
pub proof fn lemma_frame_round_trip(payload: Seq<u8>, rest: Seq<u8>, max_len: u32)
    requires
        payload.len() <= max_len,
    ensures
        frame_at(frame_of(payload) + rest, max_len) == Ok::<(Seq<u8>, int), FrameError>(
            (payload, 4 + payload.len() as int),
        ),
{
    let bytes = frame_of(payload) + rest;
    lemma_le_round_trip(payload.len() as u32);
    assert(bytes.subrange(4, 4 + payload.len() as int) =~= payload);
}

/// A frame cut short anywhere, in the header or in the payload, is never
/// read as a message: every proper prefix of a frame is `Truncated`.
pub proof fn lemma_cut_frame_is_truncated(payload: Seq<u8>, keep: int, max_len: u32)
    requires
        payload.len() <= max_len,
        0 <= keep < frame_of(payload).len(),
    ensures
        frame_at(frame_of(payload).subrange(0, keep), max_len) == Err::<
            (Seq<u8>, int),
            FrameError,
        >(FrameError::Truncated),
{
    lemma_le_round_trip(payload.len() as u32);
}

/// Whatever the bytes, a successful read hands out exactly the declared
/// number of payload bytes, all of them taken from the stream.
pub proof fn lemma_frame_is_whole(bytes: Seq<u8>, max_len: u32)
    ensures
        frame_at(bytes, max_len) matches Ok((payload, consumed)) ==> {
            &&& payload.len() == le_value(bytes)
            &&& payload.len() <= max_len
            &&& consumed == 4 + payload.len()
            &&& consumed <= bytes.len()
            &&& bytes.subrange(0, consumed) == frame_of(payload)
        },
{
    if frame_at(bytes, max_len) is Ok {
        lemma_le_bytes_of_value(bytes.subrange(0, 4));
    }
}

} // verus!
