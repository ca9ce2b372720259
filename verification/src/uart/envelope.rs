//! What every frame has in common: magic, checksum, and a header that ends
//! with the length of the payload.

use vstd::prelude::*;
use crate::checksum::{checksum, crc16_ibm_3740};
use crate::error::{DecodeError, FrameError};
use crate::wire::{push_bytes, push_u16_le, read_u16_le, u16_at, u16_le};

verus! {

/// First magic byte of a frame.
pub const MAGIC_0: u8 = 0xca;

/// Second magic byte of a frame.
pub const MAGIC_1: u8 = 0xfe;

/// Offset of the type byte in a frame.
pub const TYPE_OFFSET: usize = 4;

/// Set in the type byte of a node response, clear in that of a node request.
pub const RESPONSE_BIT: u8 = 0x80;

/// Which way a frame travels.
#[derive(Debug, Clone, Copy, PartialEq, Eq, Structural)]
pub enum FrameKind {
    Request,
    Response,
}

/// The kind that the top bit of a node's type byte tells.
pub open spec fn kind_of(type_byte: u8) -> FrameKind {
    if type_byte < 0x80 {
        FrameKind::Request
    } else {
        FrameKind::Response
    }
}

/// Where the frame at the head of `s` ends, if its header is `header_len`
/// bytes long: the last byte of the header is the length of the payload.
pub open spec fn frame_end(s: Seq<u8>, header_len: int) -> int {
    header_len + s[header_len - 1]
}

/// The bytes of the frame at the head of `s` that its checksum covers: all
/// from the type byte to the end of the payload.
pub open spec fn covered(s: Seq<u8>, header_len: int) -> Seq<u8> {
    s.subrange(4, frame_end(s, header_len))
}

/// Why `s` does not start with the shape of a frame, or `None` where it
/// does.
///
/// `header_len` is the length of the header, magic and checksum included.
/// `expected` is the kind that the top bit of the type byte has to tell, or
/// `None` where the dialect has no such bit. The checks are made in the order
/// of the bytes: magic, kind, length of the header, length of the payload.
pub open spec fn extent_error(s: Seq<u8>, header_len: int, expected: Option<FrameKind>) -> Option<
    FrameError,
> {
    if s.len() < 2 {
        Some(FrameError::Structure(DecodeError::Truncated))
    } else if s[0] != MAGIC_0 || s[1] != MAGIC_1 {
        Some(FrameError::Structure(DecodeError::MagicMismatch))
    } else if s.len() < 5 {
        Some(FrameError::Structure(DecodeError::Truncated))
    } else if expected is Some && expected != Some(kind_of(s[4])) {
        Some(FrameError::Direction)
    } else if s.len() < header_len || s.len() < frame_end(s, header_len) {
        Some(FrameError::Structure(DecodeError::Truncated))
    } else {
        None
    }
}

/// Why `s` does not start with a sound frame, or `None` where it does, given
/// that `computed` is the checksum of what the frame's checksum covers: what
/// is wrong with the shape, else that the checksum in the frame is another.
pub open spec fn envelope_error_given(
    s: Seq<u8>,
    header_len: int,
    expected: Option<FrameKind>,
    computed: u16,
) -> Option<FrameError> {
    match extent_error(s, header_len, expected) {
        Some(e) => Some(e),
        None => if u16_at(s, 2) != computed {
            Some(FrameError::Integrity)
        } else {
            None
        },
    }
}

/// Why `s` does not start with a sound frame, or `None` where it does: what
/// is wrong with the shape, else that the checksum in the frame is not that
/// of the bytes it covers.
pub open spec fn envelope_error(s: Seq<u8>, header_len: int, expected: Option<FrameKind>) -> Option<
    FrameError,
> {
    envelope_error_given(s, header_len, expected, crc16_ibm_3740(covered(s, header_len)))
}

/// Checks the shape of the frame at the head of `input` and says where the
/// frame ends. The checksum is not looked at.
pub fn frame_extent(input: &[u8], header_len: usize, expected: Option<FrameKind>) -> (r: Result<
    usize,
    FrameError,
>)
    requires
        5 <= header_len <= 255,
    ensures
        match r {
            Ok(end) => {
                &&& extent_error(input@, header_len as int, expected) is None
                &&& end == frame_end(input@, header_len as int)
                &&& header_len <= end <= input@.len()
            },
            Err(e) => extent_error(input@, header_len as int, expected) == Some(e),
        },
{
    if input.len() < 2 {
        return Err(FrameError::Structure(DecodeError::Truncated));
    }
    if input[0] != MAGIC_0 || input[1] != MAGIC_1 {
        return Err(FrameError::Structure(DecodeError::MagicMismatch));
    }
    if input.len() < 5 {
        return Err(FrameError::Structure(DecodeError::Truncated));
    }
    let is_response: bool = input[TYPE_OFFSET] >= RESPONSE_BIT;
    match expected {
        Some(FrameKind::Request) => {
            if is_response {
                return Err(FrameError::Direction);
            }
        },
        Some(FrameKind::Response) => {
            if !is_response {
                return Err(FrameError::Direction);
            }
        },
        None => {},
    }
    if input.len() < header_len {
        return Err(FrameError::Structure(DecodeError::Truncated));
    }
    let end: usize = header_len + input[header_len - 1] as usize;
    if input.len() < end {
        return Err(FrameError::Structure(DecodeError::Truncated));
    }
    Ok(end)
}

/// Checks the envelope of the frame at the head of `input` against the
/// checksum `computed` of what it covers, and says where the frame ends.
pub fn check_envelope_given(
    input: &[u8],
    header_len: usize,
    expected: Option<FrameKind>,
    computed: u16,
) -> (r: Result<usize, FrameError>)
    requires
        5 <= header_len <= 255,
    ensures
        match r {
            Ok(end) => {
                &&& envelope_error_given(input@, header_len as int, expected, computed) is None
                &&& end == frame_end(input@, header_len as int)
                &&& header_len <= end <= input@.len()
            },
            Err(e) => envelope_error_given(input@, header_len as int, expected, computed) == Some(
                e,
            ),
        },
{
    let end: usize = match frame_extent(input, header_len, expected) {
        Ok(end) => end,
        Err(e) => {
            return Err(e);
        },
    };
    if read_u16_le(input, 2) != computed {
        return Err(FrameError::Integrity);
    }
    Ok(end)
}

/// The checksum of what the checksum of the frame at the head of `input`
/// covers, where the frame has the shape of one; the error in its shape
/// otherwise.
pub fn covered_checksum(input: &[u8], header_len: usize, expected: Option<FrameKind>) -> (r: Result<
    u16,
    FrameError,
>)
    requires
        5 <= header_len <= 255,
    ensures
        match r {
            Ok(crc) => extent_error(input@, header_len as int, expected) is None && crc
                == crc16_ibm_3740(covered(input@, header_len as int)),
            Err(e) => extent_error(input@, header_len as int, expected) == Some(e),
        },
{
    match frame_extent(input, header_len, expected) {
        Ok(end) => Ok(checksum(vstd::slice::slice_subrange(input, TYPE_OFFSET, end))),
        Err(e) => Err(e),
    }
}

/// Puts `body` under the magic and the checksum `crc`.
pub fn frame_with_checksum(body: &[u8], crc: u16) -> (out: Vec<u8>)
    ensures
        out@ == seq![MAGIC_0, MAGIC_1] + u16_le(crc) + body@,
{
    let mut out: Vec<u8> = Vec::new();
    out.push(MAGIC_0);
    out.push(MAGIC_1);
    push_u16_le(&mut out, crc);
    push_bytes(&mut out, body);
    assert(out@ =~= seq![MAGIC_0, MAGIC_1] + u16_le(crc) + body@);
    out
}

/// The frame that carries `body`: the magic, the checksum of `body`, and
/// `body` itself, which is all from the type byte to the end of the payload.
pub open spec fn sealed(body: Seq<u8>) -> Seq<u8> {
    seq![MAGIC_0, MAGIC_1] + u16_le(crc16_ibm_3740(body)) + body
}

} // verus!
