//! What can go wrong while decoding or encoding.

use vstd::prelude::*;

verus! {

/// A buffer that does not have the shape of what was asked for.
///
/// Such an error ends one attempt to decode, never a session: the caller
/// drops the buffer, or waits for more bytes, and goes on.
#[derive(Debug, Clone, Copy, PartialEq, Eq, Structural)]
pub enum DecodeError {
    /// The buffer ends before the value does.
    Truncated,
    /// The buffer does not start with the expected magic bytes.
    MagicMismatch,
    /// A tag byte selects no variant of the closed catalog.
    UnknownDiscriminator,
    /// A byte that stands for a flag holds neither 0 nor 1.
    InvalidFlag,
    /// Bytes are left over where the buffer had to hold exactly one value.
    TrailingBytes,
    /// The header gives the payload a length that its message type does not
    /// have.
    PayloadLength,
}

/// Why a frame was not decoded or not encoded.
#[derive(Debug, Clone, Copy, PartialEq, Eq, Structural)]
pub enum FrameError {
    /// The buffer is not shaped like a frame.
    Structure(DecodeError),
    /// The checksum in the frame is not that of its contents.
    Integrity,
    /// The message travels the other way: a receive-only message was to be
    /// encoded, or a request was handed to the response decoder (or the
    /// reverse).
    Direction,
}

} // verus!
