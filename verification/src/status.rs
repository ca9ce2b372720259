//! The status record of a probe.
//!
//! A probe offers the record on its status characteristic, and a repeater
//! node relays it inside a `ProbeStatusMessage`. It is 48 bytes long:
//!
//! | bytes  | field                                                        |
//! |--------|--------------------------------------------------------------|
//! | 0..4   | `log_start`, little-endian                                   |
//! | 4..8   | `log_end`, little-endian                                     |
//! | 8..21  | packed block of eight readings                               |
//! | 21     | probe id (bits 7..5), colour (bits 4..2), mode (bits 1..0)   |
//! | 22     | virtual ambient (bits 7..6), surface (bits 5..4), core       |
//! |        | (bits 3..1) sensor, battery status (bit 0)                   |
//! | 23..48 | not decoded                                                  |

use vstd::prelude::*;
use crate::error::DecodeError;
use crate::temperature::{unpack_temperatures, unpacked, Temperature};
use crate::types::{BatteryStatus, Color, Mode};
use crate::wire::{read_u32_le, u32_at};

verus! {

/// Bytes in a status record.
pub const PROBE_STATUS_LEN: usize = 48;

/// First of the four sensors that can stand for the surface.
pub const SURFACE_SENSOR_BASE: usize = 3;

/// First of the four sensors that can stand for the ambient air.
pub const AMBIENT_SENSOR_BASE: usize = 4;

/// The virtual ambient sensor in a selector byte: its two highest bits.
pub open spec fn ambient_selector(b: u8) -> u8 {
    b / 64
}

/// The virtual surface sensor in a selector byte: bits 5 and 4.
pub open spec fn surface_selector(b: u8) -> u8 {
    (b / 16) % 4
}

/// The virtual core sensor in a selector byte: bits 3 to 1.
pub open spec fn core_selector(b: u8) -> u8 {
    (b / 2) % 8
}

/// A snapshot of a probe: the window of log records it holds, its eight
/// current readings, and how it is set up.
///
/// `log_start..=log_end` is the range of sequence numbers that the probe can
/// hand out now. It moves forward as the probe records, so it is read again
/// each time it is needed.
#[derive(Debug, Clone, Copy, PartialEq, Eq)]
pub struct ProbeStatus {
    pub log_start: u32,
    pub log_end: u32,
    pub temperatures: [Temperature; 8],
    pub probe_id: u8,
    pub color: Color,
    pub mode: Mode,
    pub virtual_ambient_sensor: u8,
    pub virtual_surface_sensor: u8,
    pub virtual_core_sensor: u8,
    pub battery_status: BatteryStatus,
}

impl ProbeStatus {
    /// Whether the sub-byte fields hold what their bits can hold, so that
    /// each virtual sensor names one of the eight readings.
    pub open spec fn wf(self) -> bool {
        &&& self.probe_id < 8
        &&& self.virtual_ambient_sensor < 4
        &&& self.virtual_surface_sensor < 4
        &&& self.virtual_core_sensor < 8
    }

    /// Whether this record is what the 48 bytes of `s` from `at` on say.
    pub open spec fn decodes(self, s: Seq<u8>, at: int) -> bool {
        &&& self.log_start == u32_at(s, at)
        &&& self.log_end == u32_at(s, at + 4)
        &&& self.temperatures@ == unpacked(s, at + 8)
        &&& self.probe_id == s[at + 21] / 32
        &&& self.color == Color::of_bits(s[at + 21] / 4)
        &&& self.mode == Mode::of_bits(s[at + 21])
        &&& self.virtual_ambient_sensor == ambient_selector(s[at + 22])
        &&& self.virtual_surface_sensor == surface_selector(s[at + 22])
        &&& self.virtual_core_sensor == core_selector(s[at + 22])
        &&& self.battery_status == BatteryStatus::of_bits(s[at + 22])
    }

    /// Whether the value is well formed: see `wf`.
    pub fn is_well_formed(&self) -> (b: bool)
        ensures
            b == self.wf(),
    {
        self.probe_id < 8 && self.virtual_ambient_sensor < 4 && self.virtual_surface_sensor < 4
            && self.virtual_core_sensor < 8
    }

    /// Decodes the record in the 48 bytes of `bytes` from `at` on. Every
    /// pattern of bits is a record.
    pub fn read(bytes: &[u8], at: usize) -> (status: ProbeStatus)
        requires
            at + 48 <= bytes.len(),
        ensures
            status.decodes(bytes@, at as int),
            status.wf(),
    {
        let id_byte: u8 = bytes[at + 21];
        let sensor_byte: u8 = bytes[at + 22];
        ProbeStatus {
            log_start: read_u32_le(bytes, at),
            log_end: read_u32_le(bytes, at + 4),
            temperatures: unpack_temperatures(bytes, at + 8),
            probe_id: id_byte / 32,
            color: Color::from_bits(id_byte / 4),
            mode: Mode::from_bits(id_byte),
            virtual_ambient_sensor: sensor_byte / 64,
            virtual_surface_sensor: (sensor_byte / 16) % 4,
            virtual_core_sensor: (sensor_byte / 2) % 8,
            battery_status: BatteryStatus::from_bits(sensor_byte),
        }
    }

    /// Decodes a record from the head of `input` and hands back what follows
    /// it. Fails exactly where `input` is shorter than a record.
    pub fn from_bytes(input: &[u8]) -> (r: Result<(&[u8], ProbeStatus), DecodeError>)
        ensures
            input@.len() < 48 ==> r == Err::<(&[u8], ProbeStatus), DecodeError>(
                DecodeError::Truncated,
            ),
            input@.len() >= 48 ==> r is Ok && r->Ok_0.0@ == input@.subrange(
                48,
                input@.len() as int,
            ) && r->Ok_0.1.decodes(input@, 0) && r->Ok_0.1.wf(),
    {
        if input.len() < PROBE_STATUS_LEN {
            return Err(DecodeError::Truncated);
        }
        let status: ProbeStatus = ProbeStatus::read(input, 0);
        let rest: &[u8] = vstd::slice::slice_subrange(input, PROBE_STATUS_LEN, input.len());
        Ok((rest, status))
    }

    /// The reading of the sensor that stands for the core of the food.
    pub fn get_core_temperature(&self) -> (t: &Temperature)
        requires
            self.wf(),
        ensures
            *t == self.temperatures[self.virtual_core_sensor as int],
    {
        &self.temperatures[self.virtual_core_sensor as usize]
    }

    /// The reading of the sensor that stands for the surface of the food.
    pub fn get_surface_temperature(&self) -> (t: &Temperature)
        requires
            self.wf(),
        ensures
            *t == self.temperatures[self.virtual_surface_sensor + 3],
    {
        &self.temperatures[self.virtual_surface_sensor as usize + SURFACE_SENSOR_BASE]
    }

    /// The reading of the sensor that stands for the air around the food.
    pub fn get_ambient_temperature(&self) -> (t: &Temperature)
        requires
            self.wf(),
        ensures
            *t == self.temperatures[self.virtual_ambient_sensor + 4],
    {
        &self.temperatures[self.virtual_ambient_sensor as usize + AMBIENT_SENSOR_BASE]
    }
}

} // verus!
