//! The framing of the wire protocol.
//!
//! Every message travels as a frame: four bytes that hold the payload's
//! length as a big-endian unsigned number, then the payload itself, a JSON
//! document. The same framing is used in both directions.

use vstd::prelude::*;

verus! {

/// The number of bytes of a frame's length prefix.
pub const PREFIX_LEN: usize = 4;

/// The port the server listens on when none is configured.
pub const DEFAULT_PORT: u16 = 6969;

/// Why a frame cannot be written or read.
#[derive(Debug, Clone, Copy, PartialEq, Eq, Structural)]
pub enum FramingError {
    /// The payload is longer than a length prefix can say.
    Oversized,
    /// The bytes end before the declared length is satisfied.
    Truncated,
}

/// The four bytes of a length, most significant first.
pub open spec fn length_prefix(len: u32) -> Seq<u8> {
    seq![
        (len / 0x100_0000) as u8,
        (len / 0x1_0000 % 0x100) as u8,
        (len / 0x100 % 0x100) as u8,
        (len % 0x100) as u8,
    ]
}

/// The length that the first four bytes of `bytes` declare.
pub open spec fn declared(bytes: Seq<u8>) -> int
    recommends
        bytes.len() >= 4,
{
    bytes[0] * 0x100_0000 + bytes[1] * 0x1_0000 + bytes[2] * 0x100 + bytes[3]
}

/// The frame that carries `payload`.
pub open spec fn framed(payload: Seq<u8>) -> Seq<u8>
    recommends
        payload.len() <= u32::MAX,
{
    length_prefix(payload.len() as u32) + payload
}

/// `bytes` hold a whole frame at their start.
pub open spec fn holds_frame(bytes: Seq<u8>) -> bool {
    bytes.len() >= 4 && bytes.len() - 4 >= declared(bytes)
}

/// The payload of the frame at the start of `bytes`.
pub open spec fn first_payload(bytes: Seq<u8>) -> Seq<u8>
    recommends
        holds_frame(bytes),
{
    bytes.subrange(4, 4 + declared(bytes))
}

/// A length prefix declares the length it was made from.
pub proof fn lemma_prefix_declares_length(len: u32)
    ensures
        length_prefix(len).len() == 4,
        declared(length_prefix(len)) == len,
{
}

/// Writing a frame and reading it back returns the payload, byte for byte,
/// whatever follows the frame on the wire.
pub proof fn lemma_frame_round_trip(payload: Seq<u8>, rest: Seq<u8>)
    requires
        payload.len() <= u32::MAX,
    ensures
        holds_frame(framed(payload) + rest),
        first_payload(framed(payload) + rest) == payload,
        declared(framed(payload) + rest) == payload.len(),
{
    lemma_prefix_declares_length(payload.len() as u32);
}

/// Puts `payload` into a frame. Fails exactly if the payload is too long for
/// the length prefix.
pub fn frame(payload: &[u8]) -> (out: Result<Vec<u8>, FramingError>)
    ensures
        match out {
            Ok(bytes) => payload@.len() <= u32::MAX && bytes@ == framed(payload@),
            Err(error) => payload@.len() > u32::MAX && error == FramingError::Oversized,
        },
{
    if payload.len() > u32::MAX as usize {
        return Err(FramingError::Oversized);
    }
    let len = payload.len() as u32;
    let mut bytes: Vec<u8> = Vec::new();
    bytes.push((len / 0x100_0000) as u8);
    bytes.push((len / 0x1_0000 % 0x100) as u8);
    bytes.push((len / 0x100 % 0x100) as u8);
    bytes.push((len % 0x100) as u8);
    bytes.extend_from_slice(payload);
    Ok(bytes)
}

/// Reads the length that a length prefix declares, so that a reader knows how
/// many bytes of payload to wait for. Returns `None` while fewer than four
/// bytes are there.
pub fn declared_length(bytes: &[u8]) -> (len: Option<u32>)
    ensures
        match len {
            Some(n) => bytes@.len() >= 4 && n == declared(bytes@),
            None => bytes@.len() < 4,
        },
{
    if bytes.len() < PREFIX_LEN {
        return None;
    }
    let b0 = bytes[0] as u32;
    let b1 = bytes[1] as u32;
    let b2 = bytes[2] as u32;
    let b3 = bytes[3] as u32;
    Some(b0 * 0x100_0000 + b1 * 0x1_0000 + b2 * 0x100 + b3)
}

/// Takes the first frame out of `bytes`, which hold everything that was
/// received: returns its payload and the number of bytes the frame occupies.
/// What follows the frame is left alone. Fails exactly if the bytes end
/// before the declared length is satisfied.
pub fn unframe(bytes: &[u8]) -> (out: Result<(Vec<u8>, usize), FramingError>)
    ensures
        match out {
            Ok((payload, used)) => {
                &&& holds_frame(bytes@)
                &&& payload@ == first_payload(bytes@)
                &&& used == 4 + declared(bytes@)
            },
            Err(error) => !holds_frame(bytes@) && error == FramingError::Truncated,
        },
{
    match declared_length(bytes) {
        None => Err(FramingError::Truncated),
        Some(len) => {
            let len = len as usize;
            if bytes.len() - PREFIX_LEN < len {
                return Err(FramingError::Truncated);
            }
            let mut payload: Vec<u8> = Vec::new();
            let mut i: usize = 0;
            while i < len
                invariant
                    bytes@.len() >= 4,
                    bytes@.len() - 4 >= len,
                    bytes@.len() <= usize::MAX,
                    i <= len,
                    payload@ == bytes@.subrange(4, 4 + i),
                decreases len - i,
            {
                payload.push(bytes[PREFIX_LEN + i]);
                i = i + 1;
            }
            Ok((payload, PREFIX_LEN + len))
        },
    }
}

} // verus!
