//! Responses in the node dialect: what a node answers to a request.
//!
//! A response frame is the fifteen bytes of its header and then the payload:
//!
//! | bytes  | field                                              |
//! |--------|----------------------------------------------------|
//! | 0..2   | magic                                              |
//! | 2..4   | checksum of bytes 4 to the end, little-endian      |
//! | 4      | type byte: top bit set, message type below it      |
//! | 5..9   | id of the request that is answered, little-endian  |
//! | 9..13  | id of the response, little-endian                  |
//! | 13     | whether the request succeeded                      |
//! | 14     | length of the payload                              |
//!
//! A client only ever receives responses, so they are decoded and never
//! encoded.

use vstd::prelude::*;
use crate::error::{DecodeError, FrameError};
use crate::status::{AMBIENT_SENSOR_BASE, SURFACE_SENSOR_BASE};
use crate::temperature::{unpack_temperatures, unpacked, Temperature};
use crate::types::SerialNumber;
use crate::checksum::crc16_ibm_3740;
use crate::uart::envelope::{
    check_envelope_given, covered, covered_checksum, envelope_error_given, frame_end, FrameKind,
};
use crate::wire::{
    flag_of, read_array_6, read_flag, read_u16_le, read_u32_le, u16_at, u32_at,
};

verus! {

/// Message type of the answer to `SetProbeId`.
pub const SET_PROBE_ID: u8 = 0x01;

/// Message type of the answer to `ReadSessionInformation`.
pub const READ_SESSION_INFORMATION: u8 = 0x03;

/// Message type of the answer to `ReadLogs`.
pub const READ_LOGS: u8 = 0x04;

/// Bytes in the header of a response frame, magic and checksum included.
pub const RESPONSE_HEADER_LEN: usize = 15;

/// The session that a probe is in.
#[derive(Debug, Clone, Copy, PartialEq, Eq, Structural)]
pub struct ReadSessionInformation {
    pub probe_serial_number: SerialNumber,
    pub probe_session_id: u32,
    pub probe_sample_period: u16,
}

impl ReadSessionInformation {
    /// Whether this message is what the ten bytes of `s` from `at` on say:
    /// serial number, session id, sample period, each little-endian.
    pub open spec fn decodes(self, s: Seq<u8>, at: int) -> bool {
        &&& self.probe_serial_number == SerialNumber::at(s, at)
        &&& self.probe_session_id == u32_at(s, at + 4)
        &&& self.probe_sample_period == u16_at(s, at + 8)
    }

    /// Decodes the value that lies in `bytes` from `at` on.
    pub fn read(bytes: &[u8], at: usize) -> (m: ReadSessionInformation)
        requires
            at + 10 <= bytes.len(),
        ensures
            m.decodes(bytes@, at as int),
    {
        ReadSessionInformation {
            probe_serial_number: SerialNumber { number: read_u32_le(bytes, at) },
            probe_session_id: read_u32_le(bytes, at + 4),
            probe_sample_period: read_u16_le(bytes, at + 8),
        }
    }
}

/// One record of a probe's log: the eight readings taken at one sequence
/// number, and which of them stood for core, surface and ambient.
///
/// The payload is 28 bytes: serial number, sequence number, the packed block
/// of readings, one byte of sensor selection (ambient in bits 6..5, surface
/// in bits 4..3, core in bits 2..0; the top bit is not in use), and six
/// bytes of prediction state that are handed on as they are.
#[derive(Debug, Clone, Copy, PartialEq, Eq)]
pub struct ReadLogs {
    pub probe_serial_number: SerialNumber,
    pub sequence_number: u32,
    pub temperatures: [Temperature; 8],
    pub virtual_ambient_sensor: u8,
    pub virtual_surface_sensor: u8,
    pub virtual_core_sensor: u8,
    pub virtual_sensors_and_state: [u8; 6],
}

impl ReadLogs {
    /// Whether each virtual sensor names one of the eight readings.
    pub open spec fn wf(self) -> bool {
        &&& self.virtual_ambient_sensor < 4
        &&& self.virtual_surface_sensor < 4
        &&& self.virtual_core_sensor < 8
    }

    /// Whether this record is what the 28 bytes of `s` from `at` on say.
    pub open spec fn decodes(self, s: Seq<u8>, at: int) -> bool {
        &&& self.probe_serial_number == SerialNumber::at(s, at)
        &&& self.sequence_number == u32_at(s, at + 4)
        &&& self.temperatures@ == unpacked(s, at + 8)
        &&& self.virtual_ambient_sensor == (s[at + 21] / 32) % 4
        &&& self.virtual_surface_sensor == (s[at + 21] / 8) % 4
        &&& self.virtual_core_sensor == s[at + 21] % 8
        &&& self.virtual_sensors_and_state@ == s.subrange(at + 22, at + 28)
    }

    /// Decodes the value that lies in `bytes` from `at` on.
    pub fn read(bytes: &[u8], at: usize) -> (m: ReadLogs)
        requires
            at + 28 <= bytes.len(),
        ensures
            m.decodes(bytes@, at as int),
            m.wf(),
    {
        let sensor_byte: u8 = bytes[at + 21];
        ReadLogs {
            probe_serial_number: SerialNumber { number: read_u32_le(bytes, at) },
            sequence_number: read_u32_le(bytes, at + 4),
            temperatures: unpack_temperatures(bytes, at + 8),
            virtual_ambient_sensor: (sensor_byte / 32) % 4,
            virtual_surface_sensor: (sensor_byte / 8) % 4,
            virtual_core_sensor: sensor_byte % 8,
            virtual_sensors_and_state: read_array_6(bytes, at + 22),
        }
    }

    /// Whether the value is well formed: see `wf`.
    pub fn is_well_formed(&self) -> (b: bool)
        ensures
            b == self.wf(),
    {
        self.virtual_ambient_sensor < 4 && self.virtual_surface_sensor < 4
            && self.virtual_core_sensor < 8
    }

    /// The reading of the sensor that stood for the surface of the food.
    pub fn get_virtual_surface_temperature(&self) -> (t: &Temperature)
        requires
            self.wf(),
        ensures
            *t == self.temperatures[self.virtual_surface_sensor + 3],
    {
        &self.temperatures[self.virtual_surface_sensor as usize + SURFACE_SENSOR_BASE]
    }

    /// The reading of the sensor that stood for the core of the food.
    pub fn get_virtual_core_temperature(&self) -> (t: &Temperature)
        requires
            self.wf(),
        ensures
            *t == self.temperatures[self.virtual_core_sensor as int],
    {
        &self.temperatures[self.virtual_core_sensor as usize]
    }

    /// The reading of the sensor that stood for the air around the food.
    pub fn get_vitrual_ambient_temperature(&self) -> (t: &Temperature)
        requires
            self.wf(),
        ensures
            *t == self.temperatures[self.virtual_ambient_sensor + 4],
    {
        &self.temperatures[self.virtual_ambient_sensor as usize + AMBIENT_SENSOR_BASE]
    }
}

/// The length of the payload of a response of type `message_type`, or `None`
/// where the catalog has no such type.
pub open spec fn payload_len_of(message_type: u8) -> Option<int> {
    if message_type == SET_PROBE_ID {
        Some(0)
    } else if message_type == READ_SESSION_INFORMATION {
        Some(10)
    } else if message_type == READ_LOGS {
        Some(28)
    } else {
        None
    }
}

/// The closed catalog of responses in the node dialect.
#[derive(Debug, Clone, Copy, PartialEq, Eq)]
pub enum ResponseMessage {
    SetProbeId,
    ReadSessionInformation(ReadSessionInformation),
    ReadLogs(ReadLogs),
}

impl ResponseMessage {
    /// The message type that selects this variant.
    pub open spec fn discriminator(self) -> u8 {
        match self {
            ResponseMessage::SetProbeId => SET_PROBE_ID,
            ResponseMessage::ReadSessionInformation(_) => READ_SESSION_INFORMATION,
            ResponseMessage::ReadLogs(_) => READ_LOGS,
        }
    }

    /// Why `len` bytes are no payload of a response of type `message_type`,
    /// or `None` where they are one.
    pub open spec fn check(message_type: u8, len: int) -> Option<DecodeError> {
        match payload_len_of(message_type) {
            None => Some(DecodeError::UnknownDiscriminator),
            Some(n) => if n != len {
                Some(DecodeError::PayloadLength)
            } else {
                None
            },
        }
    }

    /// Whether this message is the response of type `message_type` whose
    /// payload lies in `s` from `at` on.
    pub open spec fn decodes(self, message_type: u8, s: Seq<u8>, at: int) -> bool {
        &&& self.discriminator() == message_type
        &&& match self {
            ResponseMessage::SetProbeId => true,
            ResponseMessage::ReadSessionInformation(m) => m.decodes(s, at),
            ResponseMessage::ReadLogs(m) => m.decodes(s, at) && m.wf(),
        }
    }

    /// Decodes the payload of a response of type `message_type` from the
    /// `len` bytes of `bytes` from `at` on.
    pub fn read(message_type: u8, bytes: &[u8], at: usize, len: usize) -> (r: Result<
        ResponseMessage,
        DecodeError,
    >)
        requires
            at + len <= bytes.len(),
        ensures
            match r {
                Ok(m) => ResponseMessage::check(message_type, len as int) is None && m.decodes(
                    message_type,
                    bytes@,
                    at as int,
                ),
                Err(e) => ResponseMessage::check(message_type, len as int) == Some(e),
            },
    {
        let expected: usize = match message_type {
            SET_PROBE_ID => 0,
            READ_SESSION_INFORMATION => 10,
            READ_LOGS => 28,
            _ => {
                return Err(DecodeError::UnknownDiscriminator);
            },
        };
        if expected != len {
            return Err(DecodeError::PayloadLength);
        }
        match message_type {
            SET_PROBE_ID => Ok(ResponseMessage::SetProbeId),
            READ_SESSION_INFORMATION => Ok(
                ResponseMessage::ReadSessionInformation(ReadSessionInformation::read(bytes, at)),
            ),
            _ => Ok(ResponseMessage::ReadLogs(ReadLogs::read(bytes, at))),
        }
    }
}

/// The header of a response frame, without the magic.
#[derive(Debug, Clone, Copy, PartialEq, Eq, Structural)]
pub struct ResponseHeader {
    pub crc: u16,
    pub response_type: u8,
    pub request_id: u32,
    pub response_id: u32,
    pub success: bool,
    pub payload_length: u8,
}

/// A response with its header.
#[derive(Debug, Clone, Copy, PartialEq, Eq)]
pub struct Response {
    pub header: ResponseHeader,
    pub message: ResponseMessage,
}

/// Why `s` does not start with a response frame, or `None` where it does:
/// what is wrong with the envelope, else with the success flag, else with
/// the payload. A frame whose type byte has its top bit clear is a request,
/// and is refused as travelling the wrong way.
pub open spec fn response_error(s: Seq<u8>) -> Option<FrameError> {
    response_error_given(s, crc16_ibm_3740(covered(s, 15)))
}

/// Why `s` does not start with a response frame, or `None` where it does,
/// given that `computed` is the checksum of what the frame's checksum
/// covers.
pub open spec fn response_error_given(s: Seq<u8>, computed: u16) -> Option<FrameError> {
    match envelope_error_given(s, 15, Some(FrameKind::Response), computed) {
        Some(e) => Some(e),
        None => if flag_of(s[13]) is None {
            Some(FrameError::Structure(DecodeError::InvalidFlag))
        } else {
            match ResponseMessage::check((s[4] % 128) as u8, s[14] as int) {
                Some(e) => Some(FrameError::Structure(e)),
                None => None,
            }
        },
    }
}

impl Response {
    /// Whether this response is what the frame at the head of `s` says.
    pub open spec fn decodes(self, s: Seq<u8>) -> bool {
        &&& self.header.crc == u16_at(s, 2)
        &&& self.header.response_type == s[4]
        &&& self.header.request_id == u32_at(s, 5)
        &&& self.header.response_id == u32_at(s, 9)
        &&& Some(self.header.success) == flag_of(s[13])
        &&& self.header.payload_length == s[14]
        &&& self.message.decodes((s[4] % 128) as u8, s, 15)
    }

    /// Decodes the response frame at the head of `input` and hands back what
    /// follows the frame.
    pub fn from_bytes(input: &[u8]) -> (r: Result<(&[u8], Response), FrameError>)
        ensures
            match r {
                Ok((rest, response)) => {
                    &&& response_error(input@) is None
                    &&& response.decodes(input@)
                    &&& rest@ == input@.subrange(frame_end(input@, 15), input@.len() as int)
                },
                Err(e) => response_error(input@) == Some(e),
            },
    {
        match covered_checksum(input, RESPONSE_HEADER_LEN, Some(FrameKind::Response)) {
            Ok(computed) => Response::from_bytes_with_checksum(input, computed),
            Err(e) => Err(e),
        }
    }

    /// Decodes the response frame at the head of `input`, given the checksum
    /// `computed` of what the frame's checksum covers, and hands back what
    /// follows the frame.
    pub fn from_bytes_with_checksum(input: &[u8], computed: u16) -> (r: Result<
        (&[u8], Response),
        FrameError,
    >)
        ensures
            match r {
                Ok((rest, response)) => {
                    &&& response_error_given(input@, computed) is None
                    &&& response.decodes(input@)
                    &&& rest@ == input@.subrange(frame_end(input@, 15), input@.len() as int)
                },
                Err(e) => response_error_given(input@, computed) == Some(e),
            },
    {
        let end: usize = match check_envelope_given(
            input,
            RESPONSE_HEADER_LEN,
            Some(FrameKind::Response),
            computed,
        ) {
            Ok(end) => end,
            Err(e) => {
                return Err(e);
            },
        };
        let success: bool = match read_flag(input[13]) {
            Ok(flag) => flag,
            Err(e) => {
                return Err(FrameError::Structure(e));
            },
        };
        let response_type: u8 = input[4];
        let payload_length: u8 = input[14];
        let message: ResponseMessage = match ResponseMessage::read(
            response_type % 128,
            input,
            RESPONSE_HEADER_LEN,
            payload_length as usize,
        ) {
            Ok(m) => m,
            Err(e) => {
                return Err(FrameError::Structure(e));
            },
        };
        let response = Response {
            header: ResponseHeader {
                crc: read_u16_le(input, 2),
                response_type,
                request_id: read_u32_le(input, 5),
                response_id: read_u32_le(input, 9),
                success,
                payload_length,
            },
            message,
        };
        let rest: &[u8] = vstd::slice::slice_subrange(input, end, input.len());
        Ok((rest, response))
    }

    /// Decodes a buffer that holds one response frame and nothing else.
    pub fn try_from(input: &[u8]) -> (r: Result<Response, FrameError>)
        ensures
            match r {
                Ok(response) => {
                    &&& response_error(input@) is None
                    &&& response.decodes(input@)
                    &&& input@.len() == frame_end(input@, 15)
                },
                Err(e) => match response_error(input@) {
                    Some(cause) => e == cause,
                    None => e == FrameError::Structure(DecodeError::TrailingBytes) && input@.len()
                        > frame_end(input@, 15),
                },
            },
    {
        match Response::from_bytes(input) {
            Ok((rest, response)) => {
                if rest.len() > 0 {
                    Err(FrameError::Structure(DecodeError::TrailingBytes))
                } else {
                    Ok(response)
                }
            },
            Err(e) => Err(e),
        }
    }

    /// A client does not send responses: there are no bytes for one.
    pub fn to_bytes(&self) -> (r: Result<Vec<u8>, FrameError>)
        ensures
            r == Err::<Vec<u8>, FrameError>(FrameError::Direction),
    {
        Err(FrameError::Direction)
    }
}

} // verus!
