//! Requests in the probe dialect: what a client asks of a probe that it is
//! connected to directly.
//!
//! A request frame is the six bytes of its header and then the payload.
//! There is no request id, and the whole type byte selects the message:
//!
//! | bytes | field                                              |
//! |-------|----------------------------------------------------|
//! | 0..2  | magic                                              |
//! | 2..4  | checksum of bytes 4 to the end, little-endian      |
//! | 4     | message type                                       |
//! | 5     | length of the payload                              |

use vstd::prelude::*;
use crate::checksum::{checksum, crc16_ibm_3740};
use crate::error::{DecodeError, FrameError};
use crate::uart::envelope::{
    check_envelope_given, covered, covered_checksum, envelope_error_given, frame_end,
    frame_with_checksum, MAGIC_0, MAGIC_1,
};
use crate::wire::{
    push_bytes, push_u32_le, read_u16_le, read_u32_le, u16_at, u16_le, u32_at, u32_le,
};

verus! {

/// Message type of `SetProbeId`.
pub const SET_PROBE_ID: u8 = 0x01;

/// Message type of `SetProbeColor`.
pub const SET_PROBE_COLOR: u8 = 0x02;

/// Message type of `ReadSessionInformation`.
pub const READ_SESSION_INFORMATION: u8 = 0x03;

/// Message type of `ReadLogs`.
pub const READ_LOGS: u8 = 0x04;

/// Bytes in the header of a request frame, magic and checksum included.
pub const REQUEST_HEADER_LEN: usize = 6;

/// Asks to set the id of the probe. Carries nothing.
#[derive(Debug, Clone, Copy, PartialEq, Eq, Structural)]
pub struct SetProbeId {}

/// Asks to set the colour of the probe. Carries nothing.
#[derive(Debug, Clone, Copy, PartialEq, Eq, Structural)]
pub struct SetProbeColor {}

/// Asks for the session that the probe is in. Carries nothing.
#[derive(Debug, Clone, Copy, PartialEq, Eq, Structural)]
pub struct ReadSessionInformation {}

/// Asks for the log records from `sequence_number_start` to
/// `sequence_number_end`, both included.
#[derive(Debug, Clone, Copy, PartialEq, Eq, Structural)]
pub struct ReadLogs {
    pub sequence_number_start: u32,
    pub sequence_number_end: u32,
}

impl ReadLogs {
    /// The payload: first and last sequence number, each little-endian.
    pub open spec fn encoded(self) -> Seq<u8> {
        u32_le(self.sequence_number_start) + u32_le(self.sequence_number_end)
    }

    /// Whether this message is what the eight bytes of `s` from `at` on say.
    pub open spec fn decodes(self, s: Seq<u8>, at: int) -> bool {
        &&& self.sequence_number_start == u32_at(s, at)
        &&& self.sequence_number_end == u32_at(s, at + 4)
    }

    /// Decodes the value that lies in `bytes` from `at` on.
    pub fn read(bytes: &[u8], at: usize) -> (m: ReadLogs)
        requires
            at + 8 <= bytes.len(),
        ensures
            m.decodes(bytes@, at as int),
    {
        ReadLogs {
            sequence_number_start: read_u32_le(bytes, at),
            sequence_number_end: read_u32_le(bytes, at + 4),
        }
    }

    /// Appends the bytes of the value to `out`.
    pub fn write(&self, out: &mut Vec<u8>)
        ensures
            final(out)@ == old(out)@ + self.encoded(),
    {
        push_u32_le(out, self.sequence_number_start);
        push_u32_le(out, self.sequence_number_end);
        assert(out@ =~= old(out)@ + self.encoded());
    }
}

/// The length of the payload of a request of type `message_type`, or `None`
/// where the catalog has no such type.
pub open spec fn payload_len_of(message_type: u8) -> Option<int> {
    if message_type == SET_PROBE_ID || message_type == SET_PROBE_COLOR || message_type
        == READ_SESSION_INFORMATION {
        Some(0)
    } else if message_type == READ_LOGS {
        Some(8)
    } else {
        None
    }
}

/// The closed catalog of requests in the probe dialect.
#[derive(Debug, Clone, Copy, PartialEq, Eq, Structural)]
pub enum RequestType {
    SetProbeId(SetProbeId),
    SetProbeColor(SetProbeColor),
    ReadSessionInformation(ReadSessionInformation),
    ReadLogs(ReadLogs),
}

impl RequestType {
    /// The message type that selects this variant.
    pub open spec fn discriminator(self) -> u8 {
        match self {
            RequestType::SetProbeId(_) => SET_PROBE_ID,
            RequestType::SetProbeColor(_) => SET_PROBE_COLOR,
            RequestType::ReadSessionInformation(_) => READ_SESSION_INFORMATION,
            RequestType::ReadLogs(_) => READ_LOGS,
        }
    }

    /// The payload of this message.
    pub open spec fn encoded(self) -> Seq<u8> {
        match self {
            RequestType::ReadLogs(m) => m.encoded(),
            _ => Seq::empty(),
        }
    }

    /// Why `len` bytes are no payload of a request of type `message_type`,
    /// or `None` where they are one.
    pub open spec fn check(message_type: u8, len: int) -> Option<DecodeError> {
        match payload_len_of(message_type) {
            None => Some(DecodeError::UnknownDiscriminator),
            Some(n) => if n != len {
                Some(DecodeError::PayloadLength)
            } else {
                None
            },
        }
    }

    /// Whether this message is the request of type `message_type` whose
    /// payload lies in `s` from `at` on.
    pub open spec fn decodes(self, message_type: u8, s: Seq<u8>, at: int) -> bool {
        &&& self.discriminator() == message_type
        &&& match self {
            RequestType::ReadLogs(m) => m.decodes(s, at),
            _ => true,
        }
    }

    /// The message type that selects this variant.
    pub fn id(&self) -> (id: u8)
        ensures
            id == self.discriminator(),
    {
        match self {
            RequestType::SetProbeId(_) => SET_PROBE_ID,
            RequestType::SetProbeColor(_) => SET_PROBE_COLOR,
            RequestType::ReadSessionInformation(_) => READ_SESSION_INFORMATION,
            RequestType::ReadLogs(_) => READ_LOGS,
        }
    }

    fn payload(&self) -> (out: Vec<u8>)
        ensures
            out@ == self.encoded(),
            out@.len() == payload_len_of(self.discriminator())->Some_0,
    {
        let mut out: Vec<u8> = Vec::new();
        match self {
            RequestType::ReadLogs(m) => {
                m.write(&mut out);
            },
            _ => {},
        }
        assert(out@ =~= self.encoded());
        out
    }

    /// The payload of this message. Every request of this dialect has one.
    pub fn to_bytes(&self) -> (r: Result<Vec<u8>, FrameError>)
        ensures
            r is Ok,
            r->Ok_0@ == self.encoded(),
    {
        Ok(self.payload())
    }

    /// Decodes the payload of a request of type `message_type` from the
    /// `len` bytes of `bytes` from `at` on.
    pub fn read(message_type: u8, bytes: &[u8], at: usize, len: usize) -> (r: Result<
        RequestType,
        DecodeError,
    >)
        requires
            at + len <= bytes.len(),
        ensures
            match r {
                Ok(m) => RequestType::check(message_type, len as int) is None && m.decodes(
                    message_type,
                    bytes@,
                    at as int,
                ),
                Err(e) => RequestType::check(message_type, len as int) == Some(e),
            },
    {
        let expected: usize = match message_type {
            SET_PROBE_ID => 0,
            SET_PROBE_COLOR => 0,
            READ_SESSION_INFORMATION => 0,
            READ_LOGS => 8,
            _ => {
                return Err(DecodeError::UnknownDiscriminator);
            },
        };
        if expected != len {
            return Err(DecodeError::PayloadLength);
        }
        match message_type {
            SET_PROBE_ID => Ok(RequestType::SetProbeId(SetProbeId {  })),
            SET_PROBE_COLOR => Ok(RequestType::SetProbeColor(SetProbeColor {  })),
            READ_SESSION_INFORMATION => Ok(
                RequestType::ReadSessionInformation(ReadSessionInformation {  }),
            ),
            _ => Ok(RequestType::ReadLogs(ReadLogs::read(bytes, at))),
        }
    }

    /// Wraps this message in a request.
    pub fn encapsulate(self) -> (request: Request)
        ensures
            request.message == self,
            request.sound(),
    {
        Request::new(self)
    }
}

/// A request with its header.
#[derive(Debug, Clone, Copy, PartialEq, Eq, Structural)]
pub struct Request {
    pub crc: u16,
    pub request_type: u8,
    pub payload_length: u8,
    pub message: RequestType,
}

/// Why `s` does not start with a request frame, or `None` where it does:
/// what is wrong with the envelope, else what is wrong with the payload.
pub open spec fn request_error(s: Seq<u8>) -> Option<FrameError> {
    request_error_given(s, crc16_ibm_3740(covered(s, 6)))
}

/// Why `s` does not start with a request frame, or `None` where it does,
/// given that `computed` is the checksum of what the frame's checksum
/// covers.
pub open spec fn request_error_given(s: Seq<u8>, computed: u16) -> Option<FrameError> {
    match envelope_error_given(s, 6, None, computed) {
        Some(e) => Some(e),
        None => match RequestType::check(s[4], s[5] as int) {
            Some(e) => Some(FrameError::Structure(e)),
            None => None,
        },
    }
}

impl Request {
    /// What the checksum covers: the type byte, the length of the payload,
    /// and the payload.
    pub open spec fn body(self) -> Seq<u8> {
        seq![self.request_type, self.payload_length] + self.message.encoded()
    }

    /// The frame of this request.
    pub open spec fn encoded(self) -> Seq<u8> {
        seq![MAGIC_0, MAGIC_1] + u16_le(self.crc) + self.body()
    }

    /// Whether the header is the one that belongs to the message.
    pub open spec fn sound(self) -> bool {
        &&& self.request_type == self.message.discriminator()
        &&& self.payload_length == self.message.encoded().len()
        &&& self.crc == crc16_ibm_3740(self.body())
    }

    /// Whether this request is what the frame at the head of `s` says.
    pub open spec fn decodes(self, s: Seq<u8>) -> bool {
        &&& self.crc == u16_at(s, 2)
        &&& self.request_type == s[4]
        &&& self.payload_length == s[5]
        &&& self.message.decodes(s[4], s, 6)
    }

    /// What the checksum of a request for `message` covers.
    pub open spec fn body_for(message: RequestType) -> Seq<u8> {
        seq![message.discriminator(), message.encoded().len() as u8] + message.encoded()
    }

    /// What the checksum of a request for `message` covers.
    pub fn body_bytes(message: &RequestType) -> (body: Vec<u8>)
        ensures
            body@ == Request::body_for(*message),
    {
        let payload: Vec<u8> = message.payload();
        let mut body: Vec<u8> = Vec::new();
        body.push(message.id());
        body.push(payload.len() as u8);
        push_bytes(&mut body, payload.as_slice());
        assert(body@ =~= Request::body_for(*message));
        body
    }

    /// Wraps `message` in a request with the checksum `crc`.
    pub fn with_checksum(message: RequestType, crc: u16) -> (request: Request)
        ensures
            request == (Request {
                crc,
                request_type: message.discriminator(),
                payload_length: message.encoded().len() as u8,
                message,
            }),
    {
        let payload: Vec<u8> = message.payload();
        Request { crc, request_type: message.id(), payload_length: payload.len() as u8, message }
    }

    /// Wraps `message` in a request, and computes the header for it.
    pub fn new(message: RequestType) -> (request: Request)
        ensures
            request == (Request {
                crc: crc16_ibm_3740(Request::body_for(message)),
                request_type: message.discriminator(),
                payload_length: message.encoded().len() as u8,
                message,
            }),
            request.sound(),
    {
        let body: Vec<u8> = Request::body_bytes(&message);
        let crc: u16 = checksum(body.as_slice());
        let request = Request::with_checksum(message, crc);
        proof {
            assert(request.body() =~= Request::body_for(message));
        }
        request
    }

    /// The frame of this request, field by field as the header holds them.
    pub fn to_bytes(&self) -> (r: Result<Vec<u8>, FrameError>)
        ensures
            r is Ok,
            r->Ok_0@ == self.encoded(),
    {
        let payload: Vec<u8> = self.message.payload();
        let mut body: Vec<u8> = Vec::new();
        body.push(self.request_type);
        body.push(self.payload_length);
        push_bytes(&mut body, payload.as_slice());
        assert(body@ =~= self.body());
        Ok(frame_with_checksum(body.as_slice(), self.crc))
    }

    /// Decodes the request frame at the head of `input` and hands back what
    /// follows the frame.
    pub fn from_bytes(input: &[u8]) -> (r: Result<(&[u8], Request), FrameError>)
        ensures
            match r {
                Ok((rest, request)) => {
                    &&& request_error(input@) is None
                    &&& request.decodes(input@)
                    &&& rest@ == input@.subrange(frame_end(input@, 6), input@.len() as int)
                },
                Err(e) => request_error(input@) == Some(e),
            },
    {
        match covered_checksum(input, REQUEST_HEADER_LEN, None) {
            Ok(computed) => Request::from_bytes_with_checksum(input, computed),
            Err(e) => Err(e),
        }
    }

    /// Decodes the request frame at the head of `input`, given the checksum
    /// `computed` of what the frame's checksum covers, and hands back what
    /// follows the frame.
    pub fn from_bytes_with_checksum(input: &[u8], computed: u16) -> (r: Result<
        (&[u8], Request),
        FrameError,
    >)
        ensures
            match r {
                Ok((rest, request)) => {
                    &&& request_error_given(input@, computed) is None
                    &&& request.decodes(input@)
                    &&& rest@ == input@.subrange(frame_end(input@, 6), input@.len() as int)
                },
                Err(e) => request_error_given(input@, computed) == Some(e),
            },
    {
        let end: usize = match check_envelope_given(input, REQUEST_HEADER_LEN, None, computed) {
            Ok(end) => end,
            Err(e) => {
                return Err(e);
            },
        };
        let request_type: u8 = input[4];
        let payload_length: u8 = input[5];
        let message: RequestType = match RequestType::read(
            request_type,
            input,
            REQUEST_HEADER_LEN,
            payload_length as usize,
        ) {
            Ok(m) => m,
            Err(e) => {
                return Err(FrameError::Structure(e));
            },
        };
        let request = Request {
            crc: read_u16_le(input, 2),
            request_type,
            payload_length,
            message,
        };
        let rest: &[u8] = vstd::slice::slice_subrange(input, end, input.len());
        Ok((rest, request))
    }
}

} // verus!
