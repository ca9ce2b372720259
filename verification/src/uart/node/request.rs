//! Requests in the node dialect: what a client asks of a node, and what a
//! node tells its clients unasked.
//!
//! A request frame is the ten bytes of its header and then the payload:
//!
//! | bytes | field                                              |
//! |-------|----------------------------------------------------|
//! | 0..2  | magic                                              |
//! | 2..4  | checksum of bytes 4 to the end, little-endian      |
//! | 4     | type byte: top bit clear, message type below it    |
//! | 5..9  | request id, little-endian                          |
//! | 9     | length of the payload                              |

use vstd::prelude::*;
use crate::checksum::{checksum, crc16_ibm_3740};
use crate::error::{DecodeError, FrameError};
use crate::random::random_request_id;
use crate::status::ProbeStatus;
use crate::uart::envelope::{
    check_envelope_given, covered, covered_checksum, envelope_error_given, frame_end,
    frame_with_checksum, FrameKind, MAGIC_0, MAGIC_1,
};
use crate::types::{Hops, MacAddress, NetworkInformation, ProductType, SerialNumber};
use crate::wire::{
    flag_byte, flag_of, push_bytes, push_u32_le, read_array_10, read_array_6, read_flag,
    read_u16_le, read_u32_le, u16_at, u32_at, u32_le,
};

verus! {

/// Asks to set the id of a probe. Carries nothing.
#[derive(Debug, Clone, Copy, PartialEq, Eq, Structural)]
pub struct SetProbeId {}

/// Asks to set the colour of a probe. Carries nothing.
#[derive(Debug, Clone, Copy, PartialEq, Eq, Structural)]
pub struct SetProbeColor {}

/// Asks for the session that a probe is in.
#[derive(Debug, Clone, Copy, PartialEq, Eq, Structural)]
pub struct ReadSessionInformation {
    pub serial_number: SerialNumber,
}

impl ReadSessionInformation {
    /// The payload: the serial number.
    pub open spec fn encoded(self) -> Seq<u8> {
        u32_le(self.serial_number.number)
    }

    /// Whether this message is what the four bytes of `s` from `at` on say.
    pub open spec fn decodes(self, s: Seq<u8>, at: int) -> bool {
        self.serial_number == SerialNumber::at(s, at)
    }

    /// Decodes the value that lies in `bytes` from `at` on.
    pub fn read(bytes: &[u8], at: usize) -> (m: ReadSessionInformation)
        requires
            at + 4 <= bytes.len(),
        ensures
            m.decodes(bytes@, at as int),
    {
        ReadSessionInformation { serial_number: SerialNumber { number: read_u32_le(bytes, at) } }
    }

    /// Appends the bytes of the value to `out`.
    pub fn write(&self, out: &mut Vec<u8>)
        ensures
            final(out)@ == old(out)@ + self.encoded(),
    {
        push_u32_le(out, self.serial_number.number);
    }
}

/// Asks for the log records of a probe from `sequence_number_start` to
/// `sequence_number_end`, both included.
#[derive(Debug, Clone, Copy, PartialEq, Eq, Structural)]
pub struct ReadLogs {
    pub probe_serial_number: SerialNumber,
    pub sequence_number_start: u32,
    pub sequence_number_end: u32,
}

impl ReadLogs {
    /// The payload: serial number, first and last sequence number.
    pub open spec fn encoded(self) -> Seq<u8> {
        u32_le(self.probe_serial_number.number) + u32_le(self.sequence_number_start) + u32_le(
            self.sequence_number_end,
        )
    }

    /// Whether this message is what the twelve bytes of `s` from `at` on say.
    pub open spec fn decodes(self, s: Seq<u8>, at: int) -> bool {
        &&& self.probe_serial_number == SerialNumber::at(s, at)
        &&& self.sequence_number_start == u32_at(s, at + 4)
        &&& self.sequence_number_end == u32_at(s, at + 8)
    }

    /// Decodes the value that lies in `bytes` from `at` on.
    pub fn read(bytes: &[u8], at: usize) -> (m: ReadLogs)
        requires
            at + 12 <= bytes.len(),
        ensures
            m.decodes(bytes@, at as int),
    {
        ReadLogs {
            probe_serial_number: SerialNumber { number: read_u32_le(bytes, at) },
            sequence_number_start: read_u32_le(bytes, at + 4),
            sequence_number_end: read_u32_le(bytes, at + 8),
        }
    }

    /// Appends the bytes of the value to `out`.
    pub fn write(&self, out: &mut Vec<u8>)
        ensures
            final(out)@ == old(out)@ + self.encoded(),
    {
        push_u32_le(out, self.probe_serial_number.number);
        push_u32_le(out, self.sequence_number_start);
        push_u32_le(out, self.sequence_number_end);
        assert(out@ =~= old(out)@ + self.encoded());
    }
}

/// Whether a heartbeat travels towards the probe or away from it.
#[derive(Debug, Clone, Copy, PartialEq, Eq, Structural)]
pub enum Direction {
    Outbound,
    Inbound,
}

impl Direction {
    /// The direction that byte `b` stands for, if any.
    pub open spec fn of_byte(b: u8) -> Option<Direction> {
        if b == 0 {
            Some(Direction::Outbound)
        } else if b == 1 {
            Some(Direction::Inbound)
        } else {
            None
        }
    }

    /// The byte that stands for this direction.
    pub open spec fn byte(self) -> u8 {
        match self {
            Direction::Outbound => 0,
            Direction::Inbound => 1,
        }
    }

    /// The value that byte `b` stands for. Fails where it stands for none.
    pub fn from_u8(b: u8) -> (r: Result<Direction, DecodeError>)
        ensures
            r == match Direction::of_byte(b) {
                Some(d) => Ok::<Direction, DecodeError>(d),
                None => Err(DecodeError::UnknownDiscriminator),
            },
    {
        match b {
            0 => Ok(Direction::Outbound),
            1 => Ok(Direction::Inbound),
            _ => Err(DecodeError::UnknownDiscriminator),
        }
    }

    /// The byte that stands for this value.
    pub fn to_u8(&self) -> (b: u8)
        ensures
            b == self.byte(),
    {
        match self {
            Direction::Outbound => 0,
            Direction::Inbound => 1,
        }
    }
}

/// The flags of a connection record: one byte, of which only the lowest
/// bit is in use.
#[derive(Debug, Clone, Copy, PartialEq, Eq, Structural)]
pub struct Attributes {
    pub connection_detail_record_is_populated: bool,
}

/// The status of a probe, as a node relays it. Nodes send it; a client never
/// does, so it can be decoded and not encoded.
#[derive(Debug, Clone, Copy, PartialEq, Eq)]
pub struct ProbeStatusMessage {
    pub probe_serial_number: SerialNumber,
    pub status: ProbeStatus,
    pub network_information: NetworkInformation,
}

impl ProbeStatusMessage {
    /// Why the 53 bytes of `s` from `at` on are no such message, or `None`
    /// where they are one.
    pub open spec fn check(s: Seq<u8>, at: int) -> Option<DecodeError> {
        if Hops::of_byte(s[at + 52]) is None {
            Some(DecodeError::UnknownDiscriminator)
        } else {
            None
        }
    }

    /// Whether this message is what the 53 bytes of `s` from `at` on say:
    /// serial number, status record, hop count.
    pub open spec fn decodes(self, s: Seq<u8>, at: int) -> bool {
        &&& self.probe_serial_number == SerialNumber::at(s, at)
        &&& self.status.decodes(s, at + 4)
        &&& Some(self.network_information.hop_count) == Hops::of_byte(s[at + 52])
    }

    /// Decodes the value that lies in `bytes` from `at` on.
    pub fn read(bytes: &[u8], at: usize) -> (r: Result<ProbeStatusMessage, DecodeError>)
        requires
            at + 53 <= bytes.len(),
        ensures
            match r {
                Ok(m) => ProbeStatusMessage::check(bytes@, at as int) is None && m.decodes(
                    bytes@,
                    at as int,
                ) && m.status.wf(),
                Err(e) => ProbeStatusMessage::check(bytes@, at as int) == Some(e),
            },
    {
        let hop_count: Hops = match Hops::from_u8(bytes[at + 52]) {
            Ok(h) => h,
            Err(e) => {
                return Err(e);
            },
        };
        Ok(
            ProbeStatusMessage {
                probe_serial_number: SerialNumber { number: read_u32_le(bytes, at) },
                status: ProbeStatus::read(bytes, at + 4),
                network_information: NetworkInformation { hop_count },
            },
        )
    }
}

/// What a node knows of one of its up to four connections.
#[derive(Debug, Clone, Copy, PartialEq, Eq)]
pub struct ConnectionDetailRecord {
    pub serial_number: [u8; 10],
    pub product_type: ProductType,
    pub attributes: Attributes,
    pub rssi: u8,
}

impl ConnectionDetailRecord {
    /// The thirteen bytes of the record: serial number, product type,
    /// attributes, signal strength.
    pub open spec fn encoded(self) -> Seq<u8> {
        self.serial_number@ + seq![
            self.product_type.byte(),
            flag_byte(self.attributes.connection_detail_record_is_populated),
            self.rssi,
        ]
    }

    /// Why the thirteen bytes of `s` from `at` on are no record, or `None`
    /// where they are one.
    pub open spec fn check(s: Seq<u8>, at: int) -> Option<DecodeError> {
        if ProductType::of_byte(s[at + 10]) is None {
            Some(DecodeError::UnknownDiscriminator)
        } else {
            None
        }
    }

    /// Whether this record is what the thirteen bytes of `s` from `at` on
    /// say. Of the attributes only the lowest bit counts.
    pub open spec fn decodes(self, s: Seq<u8>, at: int) -> bool {
        &&& self.serial_number@ == s.subrange(at, at + 10)
        &&& Some(self.product_type) == ProductType::of_byte(s[at + 10])
        &&& self.attributes.connection_detail_record_is_populated == (s[at + 11] % 2 == 1)
        &&& self.rssi == s[at + 12]
    }

    /// Decodes the value that lies in `bytes` from `at` on.
    pub fn read(bytes: &[u8], at: usize) -> (r: Result<ConnectionDetailRecord, DecodeError>)
        requires
            at + 13 <= bytes.len(),
        ensures
            match r {
                Ok(m) => ConnectionDetailRecord::check(bytes@, at as int) is None && m.decodes(
                    bytes@,
                    at as int,
                ),
                Err(e) => ConnectionDetailRecord::check(bytes@, at as int) == Some(e),
            },
    {
        let product_type: ProductType = match ProductType::from_u8(bytes[at + 10]) {
            Ok(p) => p,
            Err(e) => {
                return Err(e);
            },
        };
        Ok(
            ConnectionDetailRecord {
                serial_number: read_array_10(bytes, at),
                product_type,
                attributes: Attributes {
                    connection_detail_record_is_populated: bytes[at + 11] % 2 == 1,
                },
                rssi: bytes[at + 12],
            },
        )
    }

    /// Appends the bytes of the value to `out`.
    pub fn write(&self, out: &mut Vec<u8>)
        ensures
            final(out)@ == old(out)@ + self.encoded(),
    {
        push_bytes(out, self.serial_number.as_slice());
        out.push(self.product_type.to_u8());
        out.push(
            if self.attributes.connection_detail_record_is_populated {
                1
            } else {
                0
            },
        );
        out.push(self.rssi);
        assert(out@ =~= old(out)@ + self.encoded());
    }
}

/// What a node tells of itself at regular intervals: who it is, how far it
/// is from the probe, and whom it is connected to.
#[derive(Debug, Clone, Copy, PartialEq, Eq)]
pub struct HeartbeatMessage {
    pub node_serial_number: [u8; 10],
    pub mac_address: MacAddress,
    pub product_type: ProductType,
    pub hop_count: u8,
    pub is_inbound: Direction,
    pub connection_details: [ConnectionDetailRecord; 4],
}

impl HeartbeatMessage {
    /// The 71 bytes of the payload: serial number of the node, its address,
    /// product type, hop count, direction, and four connection records.
    pub open spec fn encoded(self) -> Seq<u8> {
        self.node_serial_number@ + self.mac_address.address@ + seq![
            self.product_type.byte(),
            self.hop_count,
            self.is_inbound.byte(),
        ] + self.connection_details[0].encoded() + self.connection_details[1].encoded()
            + self.connection_details[2].encoded() + self.connection_details[3].encoded()
    }

    /// Why the 71 bytes of `s` from `at` on are no heartbeat, or `None` where
    /// they are one. The first field, in the order of the bytes, that holds no
    /// value of its type decides.
    pub open spec fn check(s: Seq<u8>, at: int) -> Option<DecodeError> {
        if ProductType::of_byte(s[at + 16]) is None {
            Some(DecodeError::UnknownDiscriminator)
        } else if Direction::of_byte(s[at + 18]) is None {
            Some(DecodeError::UnknownDiscriminator)
        } else if ConnectionDetailRecord::check(s, at + 19) is Some {
            ConnectionDetailRecord::check(s, at + 19)
        } else if ConnectionDetailRecord::check(s, at + 32) is Some {
            ConnectionDetailRecord::check(s, at + 32)
        } else if ConnectionDetailRecord::check(s, at + 45) is Some {
            ConnectionDetailRecord::check(s, at + 45)
        } else {
            ConnectionDetailRecord::check(s, at + 58)
        }
    }

    /// Whether this heartbeat is what the 71 bytes of `s` from `at` on say.
    pub open spec fn decodes(self, s: Seq<u8>, at: int) -> bool {
        &&& self.node_serial_number@ == s.subrange(at, at + 10)
        &&& self.mac_address.address@ == s.subrange(at + 10, at + 16)
        &&& Some(self.product_type) == ProductType::of_byte(s[at + 16])
        &&& self.hop_count == s[at + 17]
        &&& Some(self.is_inbound) == Direction::of_byte(s[at + 18])
        &&& self.connection_details[0].decodes(s, at + 19)
        &&& self.connection_details[1].decodes(s, at + 32)
        &&& self.connection_details[2].decodes(s, at + 45)
        &&& self.connection_details[3].decodes(s, at + 58)
    }

    /// Decodes the value that lies in `bytes` from `at` on.
    pub fn read(bytes: &[u8], at: usize) -> (r: Result<HeartbeatMessage, DecodeError>)
        requires
            at + 71 <= bytes.len(),
        ensures
            match r {
                Ok(m) => HeartbeatMessage::check(bytes@, at as int) is None && m.decodes(
                    bytes@,
                    at as int,
                ),
                Err(e) => HeartbeatMessage::check(bytes@, at as int) == Some(e),
            },
    {
        let product_type: ProductType = match ProductType::from_u8(bytes[at + 16]) {
            Ok(p) => p,
            Err(e) => {
                return Err(e);
            },
        };
        let is_inbound: Direction = match Direction::from_u8(bytes[at + 18]) {
            Ok(d) => d,
            Err(e) => {
                return Err(e);
            },
        };
        let c0: ConnectionDetailRecord = match ConnectionDetailRecord::read(bytes, at + 19) {
            Ok(c) => c,
            Err(e) => {
                return Err(e);
            },
        };
        let c1: ConnectionDetailRecord = match ConnectionDetailRecord::read(bytes, at + 32) {
            Ok(c) => c,
            Err(e) => {
                return Err(e);
            },
        };
        let c2: ConnectionDetailRecord = match ConnectionDetailRecord::read(bytes, at + 45) {
            Ok(c) => c,
            Err(e) => {
                return Err(e);
            },
        };
        let c3: ConnectionDetailRecord = match ConnectionDetailRecord::read(bytes, at + 58) {
            Ok(c) => c,
            Err(e) => {
                return Err(e);
            },
        };
        Ok(
            HeartbeatMessage {
                node_serial_number: read_array_10(bytes, at),
                mac_address: MacAddress { address: read_array_6(bytes, at + 10) },
                product_type,
                hop_count: bytes[at + 17],
                is_inbound,
                connection_details: [c0, c1, c2, c3],
            },
        )
    }

    /// Appends the bytes of the value to `out`.
    pub fn write(&self, out: &mut Vec<u8>)
        ensures
            final(out)@ == old(out)@ + self.encoded(),
    {
        push_bytes(out, self.node_serial_number.as_slice());
        push_bytes(out, self.mac_address.address.as_slice());
        out.push(self.product_type.to_u8());
        out.push(self.hop_count);
        out.push(self.is_inbound.to_u8());
        assert(out@ =~= old(out)@ + self.node_serial_number@ + self.mac_address.address@ + seq![
            self.product_type.byte(),
            self.hop_count,
            self.is_inbound.byte(),
        ]);
        self.connection_details[0].write(out);
        self.connection_details[1].write(out);
        self.connection_details[2].write(out);
        self.connection_details[3].write(out);
        assert(out@ =~= old(out)@ + self.encoded());
    }
}

/// One slot of a node's list of thermometers.
#[derive(Debug, Clone, Copy, PartialEq, Eq, Structural)]
pub struct SyncThermometer {
    pub present: bool,
    pub serial_number: SerialNumber,
}

impl SyncThermometer {
    /// The five bytes of the slot: a flag, then the serial number.
    pub open spec fn encoded(self) -> Seq<u8> {
        seq![flag_byte(self.present)] + u32_le(self.serial_number.number)
    }

    /// Why the five bytes of `s` from `at` on are no slot, or `None` where
    /// they are one.
    pub open spec fn check(s: Seq<u8>, at: int) -> Option<DecodeError> {
        if flag_of(s[at]) is None {
            Some(DecodeError::InvalidFlag)
        } else {
            None
        }
    }

    /// Whether this slot is what the five bytes of `s` from `at` on say.
    pub open spec fn decodes(self, s: Seq<u8>, at: int) -> bool {
        &&& Some(self.present) == flag_of(s[at])
        &&& self.serial_number == SerialNumber::at(s, at + 1)
    }

    /// Decodes the value that lies in `bytes` from `at` on.
    pub fn read(bytes: &[u8], at: usize) -> (r: Result<SyncThermometer, DecodeError>)
        requires
            at + 5 <= bytes.len(),
        ensures
            match r {
                Ok(m) => SyncThermometer::check(bytes@, at as int) is None && m.decodes(
                    bytes@,
                    at as int,
                ),
                Err(e) => SyncThermometer::check(bytes@, at as int) == Some(e),
            },
    {
        let present: bool = match read_flag(bytes[at]) {
            Ok(p) => p,
            Err(e) => {
                return Err(e);
            },
        };
        Ok(
            SyncThermometer {
                present,
                serial_number: SerialNumber { number: read_u32_le(bytes, at + 1) },
            },
        )
    }

    /// Appends the bytes of the value to `out`.
    pub fn write(&self, out: &mut Vec<u8>)
        ensures
            final(out)@ == old(out)@ + self.encoded(),
    {
        out.push(
            if self.present {
                1
            } else {
                0
            },
        );
        push_u32_le(out, self.serial_number.number);
        assert(out@ =~= old(out)@ + self.encoded());
    }
}

/// The thermometers that a node keeps in step with.
#[derive(Debug, Clone, Copy, PartialEq, Eq)]
pub struct SyncThermometerList {
    pub mac_address: MacAddress,
    pub sync_thermometers: [SyncThermometer; 4],
}

impl SyncThermometerList {
    /// The 26 bytes of the payload: the address of the node, then four slots.
    pub open spec fn encoded(self) -> Seq<u8> {
        self.mac_address.address@ + self.sync_thermometers[0].encoded()
            + self.sync_thermometers[1].encoded() + self.sync_thermometers[2].encoded()
            + self.sync_thermometers[3].encoded()
    }

    /// Why the 26 bytes of `s` from `at` on are no such list, or `None` where
    /// they are one.
    pub open spec fn check(s: Seq<u8>, at: int) -> Option<DecodeError> {
        if SyncThermometer::check(s, at + 6) is Some {
            SyncThermometer::check(s, at + 6)
        } else if SyncThermometer::check(s, at + 11) is Some {
            SyncThermometer::check(s, at + 11)
        } else if SyncThermometer::check(s, at + 16) is Some {
            SyncThermometer::check(s, at + 16)
        } else {
            SyncThermometer::check(s, at + 21)
        }
    }

    /// Whether this list is what the 26 bytes of `s` from `at` on say.
    pub open spec fn decodes(self, s: Seq<u8>, at: int) -> bool {
        &&& self.mac_address.address@ == s.subrange(at, at + 6)
        &&& self.sync_thermometers[0].decodes(s, at + 6)
        &&& self.sync_thermometers[1].decodes(s, at + 11)
        &&& self.sync_thermometers[2].decodes(s, at + 16)
        &&& self.sync_thermometers[3].decodes(s, at + 21)
    }

    /// Decodes the value that lies in `bytes` from `at` on.
    pub fn read(bytes: &[u8], at: usize) -> (r: Result<SyncThermometerList, DecodeError>)
        requires
            at + 26 <= bytes.len(),
        ensures
            match r {
                Ok(m) => SyncThermometerList::check(bytes@, at as int) is None && m.decodes(
                    bytes@,
                    at as int,
                ),
                Err(e) => SyncThermometerList::check(bytes@, at as int) == Some(e),
            },
    {
        let t0: SyncThermometer = match SyncThermometer::read(bytes, at + 6) {
            Ok(t) => t,
            Err(e) => {
                return Err(e);
            },
        };
        let t1: SyncThermometer = match SyncThermometer::read(bytes, at + 11) {
            Ok(t) => t,
            Err(e) => {
                return Err(e);
            },
        };
        let t2: SyncThermometer = match SyncThermometer::read(bytes, at + 16) {
            Ok(t) => t,
            Err(e) => {
                return Err(e);
            },
        };
        let t3: SyncThermometer = match SyncThermometer::read(bytes, at + 21) {
            Ok(t) => t,
            Err(e) => {
                return Err(e);
            },
        };
        Ok(
            SyncThermometerList {
                mac_address: MacAddress { address: read_array_6(bytes, at) },
                sync_thermometers: [t0, t1, t2, t3],
            },
        )
    }

    /// Appends the bytes of the value to `out`.
    pub fn write(&self, out: &mut Vec<u8>)
        ensures
            final(out)@ == old(out)@ + self.encoded(),
    {
        push_bytes(out, self.mac_address.address.as_slice());
        self.sync_thermometers[0].write(out);
        self.sync_thermometers[1].write(out);
        self.sync_thermometers[2].write(out);
        self.sync_thermometers[3].write(out);
        assert(out@ =~= old(out)@ + self.encoded());
    }
}


/// Message type of `SetProbeId`.
pub const SET_PROBE_ID: u8 = 0x01;

/// Message type of `SetProbeColor`.
pub const SET_PROBE_COLOR: u8 = 0x02;

/// Message type of `ReadSessionInformation`.
pub const READ_SESSION_INFORMATION: u8 = 0x03;

/// Message type of `ReadLogs`.
pub const READ_LOGS: u8 = 0x04;

/// Message type of `ProbeStatusMessage`.
pub const PROBE_STATUS: u8 = 0x45;

/// Message type of `HeartbeatMessage`.
pub const HEARTBEAT: u8 = 0x49;

/// Message type of `SyncThermometerList`.
pub const SYNC_THERMOMETER_LIST: u8 = 0x4b;

/// Bytes in the header of a request frame, magic and checksum included.
pub const REQUEST_HEADER_LEN: usize = 10;

/// The length of the payload of a request of type `message_type`, or `None`
/// where the catalog has no such type.
pub open spec fn payload_len_of(message_type: u8) -> Option<int> {
    if message_type == SET_PROBE_ID {
        Some(0)
    } else if message_type == SET_PROBE_COLOR {
        Some(0)
    } else if message_type == READ_SESSION_INFORMATION {
        Some(4)
    } else if message_type == READ_LOGS {
        Some(12)
    } else if message_type == PROBE_STATUS {
        Some(53)
    } else if message_type == HEARTBEAT {
        Some(71)
    } else if message_type == SYNC_THERMOMETER_LIST {
        Some(26)
    } else {
        None
    }
}

/// The closed catalog of requests in the node dialect.
#[derive(Debug, Clone, Copy, PartialEq, Eq)]
pub enum RequestMessage {
    SetProbeId(SetProbeId),
    SetProbeColor(SetProbeColor),
    ReadSessionInformation(ReadSessionInformation),
    ReadLogs(ReadLogs),
    ProbeStatusMessage(ProbeStatusMessage),
    HeartbeatMessage(HeartbeatMessage),
    SyncThermometerList(SyncThermometerList),
}

impl RequestMessage {
    /// The message type that selects this variant.
    pub open spec fn discriminator(self) -> u8 {
        match self {
            RequestMessage::SetProbeId(_) => SET_PROBE_ID,
            RequestMessage::SetProbeColor(_) => SET_PROBE_COLOR,
            RequestMessage::ReadSessionInformation(_) => READ_SESSION_INFORMATION,
            RequestMessage::ReadLogs(_) => READ_LOGS,
            RequestMessage::ProbeStatusMessage(_) => PROBE_STATUS,
            RequestMessage::HeartbeatMessage(_) => HEARTBEAT,
            RequestMessage::SyncThermometerList(_) => SYNC_THERMOMETER_LIST,
        }
    }

    /// Whether a client may send this message. A status message only ever
    /// comes from a node.
    pub open spec fn encodable(self) -> bool {
        !(self is ProbeStatusMessage)
    }

    /// The payload of this message. A message that cannot be encoded has
    /// none.
    pub open spec fn encoded(self) -> Seq<u8> {
        match self {
            RequestMessage::SetProbeId(_) => Seq::empty(),
            RequestMessage::SetProbeColor(_) => Seq::empty(),
            RequestMessage::ReadSessionInformation(m) => m.encoded(),
            RequestMessage::ReadLogs(m) => m.encoded(),
            RequestMessage::ProbeStatusMessage(_) => Seq::empty(),
            RequestMessage::HeartbeatMessage(m) => m.encoded(),
            RequestMessage::SyncThermometerList(m) => m.encoded(),
        }
    }

    /// Why the `len` bytes of `s` from `at` on are no payload of a request of
    /// type `message_type`, or `None` where they are one.
    pub open spec fn check(message_type: u8, s: Seq<u8>, at: int, len: int) -> Option<
        DecodeError,
    > {
        match payload_len_of(message_type) {
            None => Some(DecodeError::UnknownDiscriminator),
            Some(n) => if n != len {
                Some(DecodeError::PayloadLength)
            } else if message_type == PROBE_STATUS {
                ProbeStatusMessage::check(s, at)
            } else if message_type == HEARTBEAT {
                HeartbeatMessage::check(s, at)
            } else if message_type == SYNC_THERMOMETER_LIST {
                SyncThermometerList::check(s, at)
            } else {
                None
            },
        }
    }

    /// Whether this message is the request of type `message_type` whose
    /// payload lies in `s` from `at` on.
    pub open spec fn decodes(self, message_type: u8, s: Seq<u8>, at: int) -> bool {
        &&& self.discriminator() == message_type
        &&& match self {
            RequestMessage::SetProbeId(_) => true,
            RequestMessage::SetProbeColor(_) => true,
            RequestMessage::ReadSessionInformation(m) => m.decodes(s, at),
            RequestMessage::ReadLogs(m) => m.decodes(s, at),
            RequestMessage::ProbeStatusMessage(m) => m.decodes(s, at) && m.status.wf(),
            RequestMessage::HeartbeatMessage(m) => m.decodes(s, at),
            RequestMessage::SyncThermometerList(m) => m.decodes(s, at),
        }
    }

    /// The message type that selects this variant.
    pub fn id(&self) -> (id: u8)
        ensures
            id == self.discriminator(),
            id < 0x80,
    {
        match self {
            RequestMessage::SetProbeId(_) => SET_PROBE_ID,
            RequestMessage::SetProbeColor(_) => SET_PROBE_COLOR,
            RequestMessage::ReadSessionInformation(_) => READ_SESSION_INFORMATION,
            RequestMessage::ReadLogs(_) => READ_LOGS,
            RequestMessage::ProbeStatusMessage(_) => PROBE_STATUS,
            RequestMessage::HeartbeatMessage(_) => HEARTBEAT,
            RequestMessage::SyncThermometerList(_) => SYNC_THERMOMETER_LIST,
        }
    }

    /// The payload of this message. Fails, with `FrameError::Direction`,
    /// exactly for the status message, which only a node sends.
    pub fn to_bytes(&self) -> (r: Result<Vec<u8>, FrameError>)
        ensures
            self.encodable() ==> r is Ok && r->Ok_0@ == self.encoded() && r->Ok_0@.len()
                == payload_len_of(self.discriminator())->Some_0,
            !self.encodable() ==> r == Err::<Vec<u8>, FrameError>(FrameError::Direction),
    {
        let mut out: Vec<u8> = Vec::new();
        match self {
            RequestMessage::SetProbeId(_) => {},
            RequestMessage::SetProbeColor(_) => {},
            RequestMessage::ReadSessionInformation(m) => {
                m.write(&mut out);
            },
            RequestMessage::ReadLogs(m) => {
                m.write(&mut out);
            },
            RequestMessage::ProbeStatusMessage(_) => {
                return Err(FrameError::Direction);
            },
            RequestMessage::HeartbeatMessage(m) => {
                m.write(&mut out);
            },
            RequestMessage::SyncThermometerList(m) => {
                m.write(&mut out);
            },
        }
        assert(out@ =~= self.encoded());
        Ok(out)
    }

    /// Decodes the payload of a request of type `message_type` from the
    /// `len` bytes of `bytes` from `at` on. The type is read from the header
    /// first, and it alone selects how the payload is read.
    pub fn read(message_type: u8, bytes: &[u8], at: usize, len: usize) -> (r: Result<
        RequestMessage,
        DecodeError,
    >)
        requires
            at + len <= bytes.len(),
        ensures
            match r {
                Ok(m) => RequestMessage::check(message_type, bytes@, at as int, len as int)
                    is None && m.decodes(message_type, bytes@, at as int),
                Err(e) => RequestMessage::check(message_type, bytes@, at as int, len as int)
                    == Some(e),
            },
    {
        let expected: usize = match message_type {
            SET_PROBE_ID => 0,
            SET_PROBE_COLOR => 0,
            READ_SESSION_INFORMATION => 4,
            READ_LOGS => 12,
            PROBE_STATUS => 53,
            HEARTBEAT => 71,
            SYNC_THERMOMETER_LIST => 26,
            _ => {
                return Err(DecodeError::UnknownDiscriminator);
            },
        };
        if expected != len {
            return Err(DecodeError::PayloadLength);
        }
        match message_type {
            SET_PROBE_ID => Ok(RequestMessage::SetProbeId(SetProbeId {  })),
            SET_PROBE_COLOR => Ok(RequestMessage::SetProbeColor(SetProbeColor {  })),
            READ_SESSION_INFORMATION => Ok(
                RequestMessage::ReadSessionInformation(ReadSessionInformation::read(bytes, at)),
            ),
            READ_LOGS => Ok(RequestMessage::ReadLogs(ReadLogs::read(bytes, at))),
            PROBE_STATUS => match ProbeStatusMessage::read(bytes, at) {
                Ok(m) => Ok(RequestMessage::ProbeStatusMessage(m)),
                Err(e) => Err(e),
            },
            HEARTBEAT => match HeartbeatMessage::read(bytes, at) {
                Ok(m) => Ok(RequestMessage::HeartbeatMessage(m)),
                Err(e) => Err(e),
            },
            _ => match SyncThermometerList::read(bytes, at) {
                Ok(m) => Ok(RequestMessage::SyncThermometerList(m)),
                Err(e) => Err(e),
            },
        }
    }
}


/// The header of a request frame, without the magic.
#[derive(Debug, Clone, Copy, PartialEq, Eq, Structural)]
pub struct RequestHeader {
    pub crc: u16,
    pub request_type: u8,
    pub request_id: u32,
    pub payload_length: u8,
}

/// A request with its header.
#[derive(Debug, Clone, Copy, PartialEq, Eq)]
pub struct Request {
    pub request_header: RequestHeader,
    pub message: RequestMessage,
}

/// Why `s` does not start with a request frame, or `None` where it does,
/// given that `computed` is the checksum of what the frame's checksum
/// covers: what is wrong with the envelope, else what is wrong with the
/// payload.
pub open spec fn request_error_given(s: Seq<u8>, computed: u16) -> Option<FrameError> {
    match envelope_error_given(s, 10, Some(FrameKind::Request), computed) {
        Some(e) => Some(e),
        None => match RequestMessage::check(s[4], s, 10, s[9] as int) {
            Some(e) => Some(FrameError::Structure(e)),
            None => None,
        },
    }
}

/// Why `s` does not start with a request frame, or `None` where it does:
/// what is wrong with the envelope, else what is wrong with the payload.
pub open spec fn request_error(s: Seq<u8>) -> Option<FrameError> {
    request_error_given(s, crc16_ibm_3740(covered(s, 10)))
}

impl Request {
    /// What the checksum covers: the type byte, the request id, the length of
    /// the payload, and the payload.
    pub open spec fn body(self) -> Seq<u8> {
        seq![self.request_header.request_type] + u32_le(self.request_header.request_id) + seq![
            self.request_header.payload_length,
        ] + self.message.encoded()
    }

    /// The frame of this request.
    pub open spec fn encoded(self) -> Seq<u8> {
        seq![MAGIC_0, MAGIC_1] + crate::wire::u16_le(self.request_header.crc) + self.body()
    }

    /// Whether the header is the one that belongs to the message: the type is
    /// that of the message, the length is that of its payload, and the
    /// checksum is that of the body.
    pub open spec fn sound(self) -> bool {
        &&& self.message.encodable()
        &&& self.request_header.request_type == self.message.discriminator()
        &&& self.request_header.payload_length == self.message.encoded().len()
        &&& self.request_header.crc == crc16_ibm_3740(self.body())
    }

    /// Whether this request is what the frame at the head of `s` says.
    pub open spec fn decodes(self, s: Seq<u8>) -> bool {
        &&& self.request_header.crc == u16_at(s, 2)
        &&& self.request_header.request_type == s[4]
        &&& self.request_header.request_id == u32_at(s, 5)
        &&& self.request_header.payload_length == s[9]
        &&& self.message.decodes(s[4], s, 10)
    }

    /// The header that belongs to `message` with the id `request_id`, where
    /// `crc` is the checksum.
    pub open spec fn header_for(
        message: RequestMessage,
        request_id: u32,
        crc: u16,
    ) -> RequestHeader {
        RequestHeader {
            crc,
            request_type: message.discriminator(),
            request_id,
            payload_length: message.encoded().len() as u8,
        }
    }

    /// What the checksum of a request for `message` with the id `request_id`
    /// covers.
    pub open spec fn body_for(message: RequestMessage, request_id: u32) -> Seq<u8> {
        seq![message.discriminator()] + u32_le(request_id) + seq![message.encoded().len() as u8]
            + message.encoded()
    }

    /// What the checksum of a request for `message` with the id `request_id`
    /// covers. Fails, with `FrameError::Direction`, exactly for a message
    /// that a client may not send.
    pub fn body_bytes(message: &RequestMessage, request_id: u32) -> (r: Result<
        Vec<u8>,
        FrameError,
    >)
        ensures
            message.encodable() ==> r is Ok && r->Ok_0@ == Request::body_for(*message, request_id),
            !message.encodable() ==> r == Err::<Vec<u8>, FrameError>(FrameError::Direction),
    {
        let payload: Vec<u8> = match message.to_bytes() {
            Ok(p) => p,
            Err(e) => {
                return Err(e);
            },
        };
        let mut body: Vec<u8> = Vec::new();
        body.push(message.id());
        push_u32_le(&mut body, request_id);
        body.push(payload.len() as u8);
        push_bytes(&mut body, payload.as_slice());
        assert(body@ =~= Request::body_for(*message, request_id));
        Ok(body)
    }

    /// Wraps `message` in a request with the id `request_id` and the
    /// checksum `crc`. Fails, with `FrameError::Direction`, exactly for a
    /// message that a client may not send.
    pub fn with_checksum(message: RequestMessage, request_id: u32, crc: u16) -> (r: Result<
        Request,
        FrameError,
    >)
        ensures
            message.encodable() ==> r == Ok::<Request, FrameError>(
                Request {
                    request_header: Request::header_for(message, request_id, crc),
                    message,
                },
            ),
            !message.encodable() ==> r == Err::<Request, FrameError>(FrameError::Direction),
    {
        let payload: Vec<u8> = match message.to_bytes() {
            Ok(p) => p,
            Err(e) => {
                return Err(e);
            },
        };
        Ok(
            Request {
                request_header: RequestHeader {
                    crc,
                    request_type: message.id(),
                    request_id,
                    payload_length: payload.len() as u8,
                },
                message,
            },
        )
    }

    /// Wraps `message` in a request with the id `request_id`, and computes
    /// the header for it. Fails, with `FrameError::Direction`, exactly for a
    /// message that a client may not send.
    pub fn new_with_id(message: RequestMessage, request_id: u32) -> (r: Result<
        Request,
        FrameError,
    >)
        ensures
            message.encodable() ==> r == Ok::<Request, FrameError>(
                Request {
                    request_header: Request::header_for(
                        message,
                        request_id,
                        crc16_ibm_3740(Request::body_for(message, request_id)),
                    ),
                    message,
                },
            ) && r->Ok_0.sound(),
            !message.encodable() ==> r == Err::<Request, FrameError>(FrameError::Direction),
    {
        let body: Vec<u8> = match Request::body_bytes(&message, request_id) {
            Ok(body) => body,
            Err(e) => {
                return Err(e);
            },
        };
        let crc: u16 = checksum(body.as_slice());
        let r = Request::with_checksum(message, request_id, crc);
        proof {
            if message.encodable() {
                assert(r->Ok_0.body() =~= Request::body_for(message, request_id));
            }
        }
        r
    }

    /// Wraps `message` in a request with an id drawn at random.
    pub fn new(message: RequestMessage) -> (r: Result<Request, FrameError>)
        ensures
            message.encodable() ==> r is Ok && r->Ok_0.message == message && r->Ok_0.sound(),
            !message.encodable() ==> r == Err::<Request, FrameError>(FrameError::Direction),
    {
        Request::new_with_id(message, random_request_id())
    }

    /// The frame of this request, field by field as the header holds them.
    /// Fails, with `FrameError::Direction`, exactly where the message is one
    /// that a client may not send or the type byte is that of a response.
    pub fn to_bytes(&self) -> (r: Result<Vec<u8>, FrameError>)
        ensures
            self.message.encodable() && self.request_header.request_type < 0x80 ==> r is Ok
                && r->Ok_0@ == self.encoded(),
            !(self.message.encodable() && self.request_header.request_type < 0x80) ==> r
                == Err::<Vec<u8>, FrameError>(FrameError::Direction),
    {
        if self.request_header.request_type >= 0x80 {
            return Err(FrameError::Direction);
        }
        let payload: Vec<u8> = match self.message.to_bytes() {
            Ok(p) => p,
            Err(e) => {
                return Err(e);
            },
        };
        let mut body: Vec<u8> = Vec::new();
        body.push(self.request_header.request_type);
        push_u32_le(&mut body, self.request_header.request_id);
        body.push(self.request_header.payload_length);
        push_bytes(&mut body, payload.as_slice());
        assert(body@ =~= self.body());
        Ok(frame_with_checksum(body.as_slice(), self.request_header.crc))
    }

    /// Decodes the request frame at the head of `input` and hands back what
    /// follows the frame.
    pub fn from_bytes(input: &[u8]) -> (r: Result<(&[u8], Request), FrameError>)
        ensures
            match r {
                Ok((rest, request)) => {
                    &&& request_error(input@) is None
                    &&& request.decodes(input@)
                    &&& rest@ == input@.subrange(frame_end(input@, 10), input@.len() as int)
                },
                Err(e) => request_error(input@) == Some(e),
            },
    {
        match covered_checksum(input, REQUEST_HEADER_LEN, Some(FrameKind::Request)) {
            Ok(computed) => Request::from_bytes_with_checksum(input, computed),
            Err(e) => Err(e),
        }
    }

    /// Decodes the request frame at the head of `input`, given the checksum
    /// `computed` of what the frame's checksum covers, and hands back what
    /// follows the frame.
    pub fn from_bytes_with_checksum(input: &[u8], computed: u16) -> (r: Result<
        (&[u8], Request),
        FrameError,
    >)
        ensures
            match r {
                Ok((rest, request)) => {
                    &&& request_error_given(input@, computed) is None
                    &&& request.decodes(input@)
                    &&& rest@ == input@.subrange(frame_end(input@, 10), input@.len() as int)
                },
                Err(e) => request_error_given(input@, computed) == Some(e),
            },
    {
        let end: usize = match check_envelope_given(
            input,
            REQUEST_HEADER_LEN,
            Some(FrameKind::Request),
            computed,
        ) {
            Ok(end) => end,
            Err(e) => {
                return Err(e);
            },
        };
        let request_type: u8 = input[4];
        let payload_length: u8 = input[9];
        let message: RequestMessage = match RequestMessage::read(
            request_type,
            input,
            REQUEST_HEADER_LEN,
            payload_length as usize,
        ) {
            Ok(m) => m,
            Err(e) => {
                return Err(FrameError::Structure(e));
            },
        };
        let request = Request {
            request_header: RequestHeader {
                crc: read_u16_le(input, 2),
                request_type,
                request_id: read_u32_le(input, 5),
                payload_length,
            },
            message,
        };
        let rest: &[u8] = vstd::slice::slice_subrange(input, end, input.len());
        Ok((rest, request))
    }

    /// Decodes a buffer that holds one request frame and nothing else.
    pub fn try_from(input: &[u8]) -> (r: Result<Request, FrameError>)
        ensures
            match r {
                Ok(request) => {
                    &&& request_error(input@) is None
                    &&& request.decodes(input@)
                    &&& input@.len() == frame_end(input@, 10)
                },
                Err(e) => match request_error(input@) {
                    Some(cause) => e == cause,
                    None => e == FrameError::Structure(DecodeError::TrailingBytes) && input@.len()
                        > frame_end(input@, 10),
                },
            },
    {
        match Request::from_bytes(input) {
            Ok((rest, request)) => {
                if rest.len() > 0 {
                    Err(FrameError::Structure(DecodeError::TrailingBytes))
                } else {
                    Ok(request)
                }
            },
            Err(e) => Err(e),
        }
    }
}

impl RequestMessage {
    /// Wraps this message in a request with an id drawn at random.
    pub fn encapsulate(self) -> (r: Result<Request, FrameError>)
        ensures
            self.encodable() ==> r is Ok && r->Ok_0.message == self && r->Ok_0.sound(),
            !self.encodable() ==> r == Err::<Request, FrameError>(FrameError::Direction),
    {
        Request::new(self)
    }
}

} // verus!
