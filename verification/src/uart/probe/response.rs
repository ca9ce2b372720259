//! Responses in the probe dialect: what a probe answers to a request.
//!
//! A response frame is the seven bytes of its header and then the payload:
//!
//! | bytes | field                                              |
//! |-------|----------------------------------------------------|
//! | 0..2  | magic                                              |
//! | 2..4  | checksum of bytes 4 to the end, little-endian      |
//! | 4     | message type                                       |
//! | 5     | whether the request succeeded                      |
//! | 6     | length of the payload                              |
//!
//! One notification of a probe often carries several frames back to back, so
//! there is a decoder for the whole buffer beside the one for a frame.

use vstd::prelude::*;
use crate::error::{DecodeError, FrameError};
use crate::temperature::{unpack_temperatures, unpacked, Temperature};
use crate::checksum::crc16_ibm_3740;
use crate::uart::envelope::{
    check_envelope_given, covered, covered_checksum, envelope_error_given, frame_end,
};
use crate::wire::{
    flag_of, read_array_7, read_flag, read_u16_le, read_u32_le, u16_at, u32_at,
};

verus! {

/// Message type of the answer to `SetProbeId`.
pub const SET_PROBE_ID: u8 = 0x01;

/// Message type of the answer to `ReadSessionInformation`.
pub const READ_SESSION_INFORMATION: u8 = 0x03;

/// Message type of the answer to `ReadLogs`.
pub const READ_LOGS: u8 = 0x04;

/// Bytes in the header of a response frame, magic and checksum included.
pub const RESPONSE_HEADER_LEN: usize = 7;

/// The answer to `SetProbeId`. Carries nothing.
#[derive(Debug, Clone, Copy, PartialEq, Eq, Structural)]
pub struct SetProbeId {}

/// The session that the probe is in.
#[derive(Debug, Clone, Copy, PartialEq, Eq, Structural)]
pub struct ReadSessionInformation {
    pub probe_session_id: u32,
    pub probe_sample_period: u16,
}

impl ReadSessionInformation {
    /// Whether this message is what the six bytes of `s` from `at` on say:
    /// session id and sample period, each little-endian.
    pub open spec fn decodes(self, s: Seq<u8>, at: int) -> bool {
        &&& self.probe_session_id == u32_at(s, at)
        &&& self.probe_sample_period == u16_at(s, at + 4)
    }

    /// Decodes the value that lies in `bytes` from `at` on.
    pub fn read(bytes: &[u8], at: usize) -> (m: ReadSessionInformation)
        requires
            at + 6 <= bytes.len(),
        ensures
            m.decodes(bytes@, at as int),
    {
        ReadSessionInformation {
            probe_session_id: read_u32_le(bytes, at),
            probe_sample_period: read_u16_le(bytes, at + 4),
        }
    }
}

/// One record of the probe's log: the eight readings taken at one sequence
/// number, and seven bytes of sensor selection and prediction state that are
/// handed on as they are.
#[derive(Debug, Clone, Copy, PartialEq, Eq)]
pub struct ReadLogs {
    pub sequence_number: u32,
    pub temperatures: [Temperature; 8],
    pub virtual_sensors_and_state: [u8; 7],
}

impl ReadLogs {
    /// Whether this record is what the 24 bytes of `s` from `at` on say.
    pub open spec fn decodes(self, s: Seq<u8>, at: int) -> bool {
        &&& self.sequence_number == u32_at(s, at)
        &&& self.temperatures@ == unpacked(s, at + 4)
        &&& self.virtual_sensors_and_state@ == s.subrange(at + 17, at + 24)
    }

    /// Decodes the value that lies in `bytes` from `at` on.
    pub fn read(bytes: &[u8], at: usize) -> (m: ReadLogs)
        requires
            at + 24 <= bytes.len(),
        ensures
            m.decodes(bytes@, at as int),
    {
        ReadLogs {
            sequence_number: read_u32_le(bytes, at),
            temperatures: unpack_temperatures(bytes, at + 4),
            virtual_sensors_and_state: read_array_7(bytes, at + 17),
        }
    }
}

/// The length of the payload of a response of type `message_type`, or `None`
/// where the catalog has no such type.
pub open spec fn payload_len_of(message_type: u8) -> Option<int> {
    if message_type == SET_PROBE_ID {
        Some(0)
    } else if message_type == READ_SESSION_INFORMATION {
        Some(6)
    } else if message_type == READ_LOGS {
        Some(24)
    } else {
        None
    }
}

/// The closed catalog of responses in the probe dialect.
#[derive(Debug, Clone, Copy, PartialEq, Eq)]
pub enum ResponseMessage {
    SetProbeId(SetProbeId),
    ReadSessionInformation(ReadSessionInformation),
    ReadLogs(ReadLogs),
}

impl ResponseMessage {
    /// The message type that selects this variant.
    pub open spec fn discriminator(self) -> u8 {
        match self {
            ResponseMessage::SetProbeId(_) => SET_PROBE_ID,
            ResponseMessage::ReadSessionInformation(_) => READ_SESSION_INFORMATION,
            ResponseMessage::ReadLogs(_) => READ_LOGS,
        }
    }

    /// Why `len` bytes are no payload of a response of type `message_type`,
    /// or `None` where they are one.
    pub open spec fn check(message_type: u8, len: int) -> Option<DecodeError> {
        match payload_len_of(message_type) {
            None => Some(DecodeError::UnknownDiscriminator),
            Some(n) => if n != len {
                Some(DecodeError::PayloadLength)
            } else {
                None
            },
        }
    }

    /// Whether this message is the response of type `message_type` whose
    /// payload lies in `s` from `at` on.
    pub open spec fn decodes(self, message_type: u8, s: Seq<u8>, at: int) -> bool {
        &&& self.discriminator() == message_type
        &&& match self {
            ResponseMessage::SetProbeId(_) => true,
            ResponseMessage::ReadSessionInformation(m) => m.decodes(s, at),
            ResponseMessage::ReadLogs(m) => m.decodes(s, at),
        }
    }

    /// Decodes the payload of a response of type `message_type` from the
    /// `len` bytes of `bytes` from `at` on.
    pub fn read(message_type: u8, bytes: &[u8], at: usize, len: usize) -> (r: Result<
        ResponseMessage,
        DecodeError,
    >)
        requires
            at + len <= bytes.len(),
        ensures
            match r {
                Ok(m) => ResponseMessage::check(message_type, len as int) is None && m.decodes(
                    message_type,
                    bytes@,
                    at as int,
                ),
                Err(e) => ResponseMessage::check(message_type, len as int) == Some(e),
            },
    {
        let expected: usize = match message_type {
            SET_PROBE_ID => 0,
            READ_SESSION_INFORMATION => 6,
            READ_LOGS => 24,
            _ => {
                return Err(DecodeError::UnknownDiscriminator);
            },
        };
        if expected != len {
            return Err(DecodeError::PayloadLength);
        }
        match message_type {
            SET_PROBE_ID => Ok(ResponseMessage::SetProbeId(SetProbeId {  })),
            READ_SESSION_INFORMATION => Ok(
                ResponseMessage::ReadSessionInformation(ReadSessionInformation::read(bytes, at)),
            ),
            _ => Ok(ResponseMessage::ReadLogs(ReadLogs::read(bytes, at))),
        }
    }
}

/// A response with its header.
#[derive(Debug, Clone, Copy, PartialEq, Eq)]
pub struct Response {
    pub crc: u16,
    pub response_type: u8,
    pub success: bool,
    pub payload_length: u8,
    pub message: ResponseMessage,
}

/// Why `s` does not start with a response frame, or `None` where it does:
/// what is wrong with the envelope, else with the success flag, else with
/// the payload.
pub open spec fn response_error(s: Seq<u8>) -> Option<FrameError> {
    response_error_given(s, crc16_ibm_3740(covered(s, 7)))
}

/// Why `s` does not start with a response frame, or `None` where it does,
/// given that `computed` is the checksum of what the frame's checksum
/// covers.
pub open spec fn response_error_given(s: Seq<u8>, computed: u16) -> Option<FrameError> {
    match envelope_error_given(s, 7, None, computed) {
        Some(e) => Some(e),
        None => if flag_of(s[5]) is None {
            Some(FrameError::Structure(DecodeError::InvalidFlag))
        } else {
            match ResponseMessage::check(s[4], s[6] as int) {
                Some(e) => Some(FrameError::Structure(e)),
                None => None,
            }
        },
    }
}

impl Response {
    /// Whether this response is what the frame at the head of `s` says.
    pub open spec fn decodes(self, s: Seq<u8>) -> bool {
        &&& self.crc == u16_at(s, 2)
        &&& self.response_type == s[4]
        &&& Some(self.success) == flag_of(s[5])
        &&& self.payload_length == s[6]
        &&& self.message.decodes(s[4], s, 7)
    }

    /// Decodes the response frame at the head of `input` and hands back what
    /// follows the frame.
    pub fn from_bytes(input: &[u8]) -> (r: Result<(&[u8], Response), FrameError>)
        ensures
            match r {
                Ok((rest, response)) => {
                    &&& response_error(input@) is None
                    &&& response.decodes(input@)
                    &&& rest@ == input@.subrange(frame_end(input@, 7), input@.len() as int)
                },
                Err(e) => response_error(input@) == Some(e),
            },
    {
        match covered_checksum(input, RESPONSE_HEADER_LEN, None) {
            Ok(computed) => Response::from_bytes_with_checksum(input, computed),
            Err(e) => Err(e),
        }
    }

    /// Decodes the response frame at the head of `input`, given the checksum
    /// `computed` of what the frame's checksum covers, and hands back what
    /// follows the frame.
    pub fn from_bytes_with_checksum(input: &[u8], computed: u16) -> (r: Result<
        (&[u8], Response),
        FrameError,
    >)
        ensures
            match r {
                Ok((rest, response)) => {
                    &&& response_error_given(input@, computed) is None
                    &&& response.decodes(input@)
                    &&& rest@ == input@.subrange(frame_end(input@, 7), input@.len() as int)
                },
                Err(e) => response_error_given(input@, computed) == Some(e),
            },
    {
        let end: usize = match check_envelope_given(input, RESPONSE_HEADER_LEN, None, computed) {
            Ok(end) => end,
            Err(e) => {
                return Err(e);
            },
        };
        let success: bool = match read_flag(input[5]) {
            Ok(flag) => flag,
            Err(e) => {
                return Err(FrameError::Structure(e));
            },
        };
        let response_type: u8 = input[4];
        let payload_length: u8 = input[6];
        let message: ResponseMessage = match ResponseMessage::read(
            response_type,
            input,
            RESPONSE_HEADER_LEN,
            payload_length as usize,
        ) {
            Ok(m) => m,
            Err(e) => {
                return Err(FrameError::Structure(e));
            },
        };
        let response = Response {
            crc: read_u16_le(input, 2),
            response_type,
            success,
            payload_length,
            message,
        };
        let rest: &[u8] = vstd::slice::slice_subrange(input, end, input.len());
        Ok((rest, response))
    }

    /// A client does not send responses: there are no bytes for one.
    pub fn to_bytes(&self) -> (r: Result<Vec<u8>, FrameError>)
        ensures
            r == Err::<Vec<u8>, FrameError>(FrameError::Direction),
    {
        Err(FrameError::Direction)
    }
}


/// What is left of `s` after the frame at its head.
pub open spec fn after_frame(s: Seq<u8>) -> Seq<u8> {
    s.skip(frame_end(s, 7))
}

/// How many sound response frames `s` starts with, one after the other.
pub open spec fn frame_count(s: Seq<u8>) -> nat
    decreases s.len(),
{
    if response_error(s) is None {
        1 + frame_count(after_frame(s))
    } else {
        0
    }
}

/// What is left of `s` after the sound response frames that it starts with.
pub open spec fn after_frames(s: Seq<u8>) -> Seq<u8>
    decreases s.len(),
{
    if response_error(s) is None {
        after_frames(after_frame(s))
    } else {
        s
    }
}

/// What is left of `s` after `i` frames: where frame `i` starts.
pub open spec fn from_frame(s: Seq<u8>, i: nat) -> Seq<u8>
    decreases i,
{
    if i == 0 {
        s
    } else {
        after_frame(from_frame(s, (i - 1) as nat))
    }
}

/// Decodes the response frames that `input` starts with, one after the
/// other, and hands back what follows the last of them.
///
/// Decoding stops, without an error, at the end of the buffer or at the
/// first place where no sound frame starts: what is left may be the head of
/// a frame whose rest has not arrived.
pub fn decode_frames(input: &[u8]) -> (r: (Vec<Response>, &[u8]))
    ensures
        r.0@.len() == frame_count(input@),
        forall|i: int|
            0 <= i < r.0@.len() ==> (#[trigger] r.0@[i]).decodes(from_frame(input@, i as nat)),
        r.1@ == after_frames(input@),
{
    let mut frames: Vec<Response> = Vec::new();
    let mut rest: &[u8] = input;
    loop
        invariant
            frame_count(input@) == frames@.len() + frame_count(rest@),
            after_frames(input@) == after_frames(rest@),
            from_frame(input@, frames@.len()) == rest@,
            forall|i: int|
                0 <= i < frames@.len() ==> (#[trigger] frames@[i]).decodes(
                    from_frame(input@, i as nat),
                ),
        ensures
            frames@.len() == frame_count(input@),
            rest@ == after_frames(input@),
        decreases rest@.len(),
    {
        match Response::from_bytes(rest) {
            Ok((tail, response)) => {
                proof {
                    assert(tail@ =~= after_frame(rest@));
                }
                frames.push(response);
                rest = tail;
            },
            Err(_) => {
                break;
            },
        }
    }
    (frames, rest)
}

} // verus!
