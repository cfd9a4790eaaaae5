//! Framing on the enrollment channel: every message travels as four bytes
//! of length, most significant first, and then exactly that many bytes of
//! payload. Client and server frame alike.

use vstd::prelude::*;

verus! {

/// The bytes of a length prefix.
pub const HEADER_LEN: usize = 4;

/// The payload size that both ends accept unless told otherwise: 8 MiB.
pub const DEFAULT_MAX_FRAME_LEN: usize = 8_388_608;

/// Why bytes from the wire were turned down.
#[derive(Clone, Copy, Debug, PartialEq, Eq, Structural)]
pub enum CodecError {
    /// The length prefix is over the maximum.
    FrameTooLarge,
    /// The payload is no message of the protocol.
    DecodeError,
}

/// The four bytes of a length, most significant first.
pub open spec fn be32(n: int) -> Seq<u8> {
    seq![
        (n / 0x100_0000) as u8,
        ((n / 0x1_0000) % 0x100) as u8,
        ((n / 0x100) % 0x100) as u8,
        (n % 0x100) as u8,
    ]
}

/// The length that the first four bytes spell.
pub open spec fn be32_value(bytes: Seq<u8>) -> int {
    bytes[0] * 0x100_0000 + bytes[1] * 0x1_0000 + bytes[2] * 0x100 + bytes[3]
}

/// A payload can be framed under the maximum: it is no longer than the
/// maximum, and its length can be written in four bytes.
pub open spec fn frameable(len: int, max_frame_len: usize) -> bool {
    len <= max_frame_len && len <= u32::MAX
}

/// The frame of a payload.
pub open spec fn frame(payload: Seq<u8>) -> Seq<u8> {
    be32(payload.len() as int) + payload
}

/// What the front of a buffer holds: nothing whole yet (`None`), a payload
/// and the count of bytes it took with its prefix, or a prefix over the
/// maximum. The prefix is judged as soon as it is complete, before any of
/// the payload has arrived.
pub open spec fn spec_decode(buffer: Seq<u8>, max_frame_len: usize) -> Result<
    Option<(Seq<u8>, int)>,
    CodecError,
> {
    if buffer.len() < 4 {
        Ok(None)
    } else {
        let n = be32_value(buffer);
        if n > max_frame_len {
            Err(CodecError::FrameTooLarge)
        } else if buffer.len() < 4 + n {
            Ok(None)
        } else {
            Ok(Some((buffer.subrange(4, 4 + n), 4 + n)))
        }
    }
}

/// Frames a payload. Fails, with `FrameTooLarge`, exactly when the payload
/// cannot be framed under the maximum.
pub fn encode_frame(payload: &[u8], max_frame_len: usize) -> (outcome: Result<Vec<u8>, CodecError>)
    ensures
        match outcome {
            Ok(bytes) => frameable(payload@.len() as int, max_frame_len) && bytes@ == frame(
                payload@,
            ),
            Err(error) => error == CodecError::FrameTooLarge && !frameable(
                payload@.len() as int,
                max_frame_len,
            ),
        },
{
    let len = payload.len();
    if len > max_frame_len || len > 0xffff_ffff {
        return Err(CodecError::FrameTooLarge);
    }
    let mut bytes: Vec<u8> = Vec::new();
    bytes.push((len / 0x100_0000) as u8);
    bytes.push(((len / 0x1_0000) % 0x100) as u8);
    bytes.push(((len / 0x100) % 0x100) as u8);
    bytes.push((len % 0x100) as u8);
    assert(bytes@ =~= be32(len as int));
    let mut i: usize = 0;
    while i < len
        invariant
            i <= len,
            len == payload@.len(),
            bytes@ == be32(len as int) + payload@.subrange(0, i as int),
        decreases len - i,
    {
        bytes.push(payload[i]);
        assert(bytes@ =~= be32(len as int) + payload@.subrange(0, i + 1));
        i += 1;
    }
    assert(payload@.subrange(0, len as int) =~= payload@);
    Ok(bytes)
}

/// Takes the first frame off the front of a buffer, if it is all there.
/// `Ok(None)` asks for more bytes and consumes none.
pub fn decode_frame(buffer: &[u8], max_frame_len: usize) -> (outcome: Result<
    Option<(Vec<u8>, usize)>,
    CodecError,
>)
    ensures
        match outcome {
            Ok(Some((payload, consumed))) => spec_decode(buffer@, max_frame_len) == Ok::<
                Option<(Seq<u8>, int)>,
                CodecError,
            >(Some((payload@, consumed as int))),
            Ok(None) => spec_decode(buffer@, max_frame_len) == Ok::<
                Option<(Seq<u8>, int)>,
                CodecError,
            >(None),
            Err(error) => spec_decode(buffer@, max_frame_len) == Err::<
                Option<(Seq<u8>, int)>,
                CodecError,
            >(error),
        },
{
    if buffer.len() < 4 {
        return Ok(None);
    }
    let n: u64 = (buffer[0] as u64) * 0x100_0000 + (buffer[1] as u64) * 0x1_0000 + (
    buffer[2] as u64) * 0x100 + (buffer[3] as u64);
    if n > max_frame_len as u64 {
        return Err(CodecError::FrameTooLarge);
    }
    let n: usize = n as usize;
    if buffer.len() - 4 < n {
        return Ok(None);
    }
    let mut payload: Vec<u8> = Vec::new();
    let mut i: usize = 0;
    while i < n
        invariant
            i <= n,
            4 + n <= buffer@.len() <= usize::MAX,
            payload@ == buffer@.subrange(4, 4 + i),
        decreases n - i,
    {
        payload.push(buffer[4 + i]);
        assert(payload@ =~= buffer@.subrange(4, 4 + i + 1));
        i += 1;
    }
    Ok(Some((payload, 4 + n)))
}

/// The length prefix reads back as the length it was written from.
pub proof fn lemma_be32_round_trip(n: int)
    requires
        0 <= n <= u32::MAX,
    ensures
        be32(n).len() == 4,
        be32_value(be32(n)) == n,
{
}

/// A frame decodes to its payload, whatever follows it in the buffer, and
/// takes exactly its own bytes: four and the payload's length.
pub proof fn law_frame_round_trip(payload: Seq<u8>, rest: Seq<u8>, max_frame_len: usize)
    requires
        frameable(payload.len() as int, max_frame_len),
    ensures
        spec_decode(frame(payload) + rest, max_frame_len) == Ok::<
            Option<(Seq<u8>, int)>,
            CodecError,
        >(Some((payload, 4 + payload.len() as int))),
{
    let n = payload.len() as int;
    let buffer = frame(payload) + rest;
    lemma_be32_round_trip(n);
    assert(buffer[0] == be32(n)[0] && buffer[1] == be32(n)[1] && buffer[2] == be32(n)[2]
        && buffer[3] == be32(n)[3]);
    assert(be32_value(buffer) == n);
    assert(buffer.subrange(4, 4 + n) =~= payload);
}

/// A frame that has not all arrived is not decoded, and nothing is made of
/// the part that has: every proper prefix of a frame asks for more.
pub proof fn law_partial_frame_waits(payload: Seq<u8>, cut: int, max_frame_len: usize)
    requires
        frameable(payload.len() as int, max_frame_len),
        0 <= cut < 4 + payload.len(),
    ensures
        spec_decode(frame(payload).subrange(0, cut), max_frame_len) == Ok::<
            Option<(Seq<u8>, int)>,
            CodecError,
        >(None),
{
    let n = payload.len() as int;
    let part = frame(payload).subrange(0, cut);
    lemma_be32_round_trip(n);
    if cut >= 4 {
        assert(part[0] == be32(n)[0] && part[1] == be32(n)[1] && part[2] == be32(n)[2] && part[3]
            == be32(n)[3]);
        assert(be32_value(part) == n);
    }
}

/// A length prefix over the maximum is turned down as soon as its four
/// bytes are there, whatever follows; and a payload over the maximum is
/// never framed.
pub proof fn law_oversized_frame_rejected(buffer: Seq<u8>, max_frame_len: usize)
    requires
        buffer.len() >= 4,
        be32_value(buffer) > max_frame_len,
    ensures
        spec_decode(buffer, max_frame_len) == Err::<Option<(Seq<u8>, int)>, CodecError>(
            CodecError::FrameTooLarge,
        ),
{
}

/// Takes the first frame out of a receive buffer, if it is all there, and
/// leaves what follows it. A buffer that holds no whole frame, or a prefix
/// over the maximum, is left as it is.
pub fn take_frame(buffer: &mut Vec<u8>, max_frame_len: usize) -> (outcome: Result<
    Option<Vec<u8>>,
    CodecError,
>)
    ensures
        match outcome {
            Ok(Some(payload)) => {
                &&& spec_decode(old(buffer)@, max_frame_len) == Ok::<
                    Option<(Seq<u8>, int)>,
                    CodecError,
                >(Some((payload@, 4 + payload@.len() as int)))
                &&& final(buffer)@ == old(buffer)@.subrange(
                    4 + payload@.len() as int,
                    old(buffer)@.len() as int,
                )
            },
            Ok(None) => {
                &&& spec_decode(old(buffer)@, max_frame_len) == Ok::<
                    Option<(Seq<u8>, int)>,
                    CodecError,
                >(None)
                &&& final(buffer)@ == old(buffer)@
            },
            Err(error) => {
                &&& spec_decode(old(buffer)@, max_frame_len) == Err::<
                    Option<(Seq<u8>, int)>,
                    CodecError,
                >(error)
                &&& final(buffer)@ == old(buffer)@
            },
        },
{
    match decode_frame(buffer.as_slice(), max_frame_len) {
        Ok(Some((payload, consumed))) => {
            let rest = buffer.split_off(consumed);
            *buffer = rest;
            Ok(Some(payload))
        },
        Ok(None) => Ok(None),
        Err(error) => Err(error),
    }
}

/// Frames that follow one another in a buffer come out one after the
/// other, each as it went in: after the first is taken, what is left
/// decodes to the second.
pub proof fn law_frames_in_sequence(
    first: Seq<u8>,
    second: Seq<u8>,
    rest: Seq<u8>,
    max_frame_len: usize,
)
    requires
        frameable(first.len() as int, max_frame_len),
        frameable(second.len() as int, max_frame_len),
    ensures
        ({
            let buffer = frame(first) + frame(second) + rest;
            let left = buffer.subrange(4 + first.len() as int, buffer.len() as int);
            &&& spec_decode(buffer, max_frame_len) == Ok::<Option<(Seq<u8>, int)>, CodecError>(
                Some((first, 4 + first.len() as int)),
            )
            &&& left == frame(second) + rest
            &&& spec_decode(left, max_frame_len) == Ok::<Option<(Seq<u8>, int)>, CodecError>(
                Some((second, 4 + second.len() as int)),
            )
        }),
{
    let buffer = frame(first) + frame(second) + rest;
    let tail = frame(second) + rest;
    let left = buffer.subrange(4 + first.len() as int, buffer.len() as int);
    assert(frame(first).len() == 4 + first.len()) by {
        lemma_be32_round_trip(first.len() as int);
    }
    assert(buffer == frame(first) + tail) by {
        assert(buffer =~= frame(first) + tail);
    }
    assert(left == tail) by {
        assert(left =~= tail);
    }
    law_frame_round_trip(first, tail, max_frame_len);
    law_frame_round_trip(second, rest, max_frame_len);
}

} // verus!
