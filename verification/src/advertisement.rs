//! The manufacturer-specific data that every device advertises.
//!
//! The payload is 24 bytes long whatever the product:
//!
//! | bytes  | field                                                        |
//! |--------|--------------------------------------------------------------|
//! | 0..2   | vendor magic                                                 |
//! | 2      | product type                                                 |
//! | 3..7   | serial number of the probe, little-endian                    |
//! | 7..20  | packed block of eight readings                               |
//! | 20     | probe id (bits 7..5), colour (bits 4..2), mode (bits 1..0)   |
//! | 21     | virtual ambient (bits 7..6), surface (bits 5..4), core       |
//! |        | (bits 3..1) sensor, battery status (bit 0)                   |
//! | 22     | hop count, for a repeater; padding otherwise                 |
//! | 23     | padding                                                      |
//!
//! Two byte orders of the vendor magic have been seen in the field, so the
//! decoder takes the magic as a parameter; `ADVERTISEMENT_MAGIC` is the one
//! that current devices send.

use vstd::prelude::*;
use crate::error::DecodeError;
use crate::status::{
    ambient_selector, core_selector, surface_selector, AMBIENT_SENSOR_BASE, SURFACE_SENSOR_BASE,
};
use crate::temperature::{unpack_temperatures, unpacked, Temperature};
use crate::types::{
    BatteryStatus, Color, Hops, Mode, NetworkInformation, ProductType, SerialNumber,
};
use crate::wire::read_u32_le;

verus! {

/// Bytes in an advertisement payload.
pub const ADVERTISEMENT_LEN: usize = 24;

/// The vendor magic as current devices send it.
pub const ADVERTISEMENT_MAGIC: [u8; 2] = [0x09, 0xc7];

/// The vendor magic as older captures show it.
pub const ADVERTISEMENT_MAGIC_SWAPPED: [u8; 2] = [0xc7, 0x09];

/// What a device says of itself in its advertisement.
#[derive(Debug, Clone, Copy, PartialEq, Eq)]
pub struct ManufacturerSpecificData {
    pub product_type: ProductType,
    pub probe_serial_number: SerialNumber,
    pub temperatures: [Temperature; 8],
    pub probe_id: u8,
    pub color: Color,
    pub mode: Mode,
    pub virtual_ambient_sensor: u8,
    pub virtual_surface_sensor: u8,
    pub virtual_core_sensor: u8,
    pub battery_status: BatteryStatus,
    /// Present exactly for a repeater.
    pub network_information: Option<NetworkInformation>,
}

/// Why the bytes of `s` are no advertisement with magic `magic`, or `None`
/// where they are one. The fields are taken in order, and the first that is
/// cut short or holds no value of its type decides.
pub open spec fn advertisement_error(s: Seq<u8>, magic: Seq<u8>) -> Option<DecodeError> {
    if s.len() < 2 {
        Some(DecodeError::Truncated)
    } else if s[0] != magic[0] || s[1] != magic[1] {
        Some(DecodeError::MagicMismatch)
    } else if s.len() < 3 {
        Some(DecodeError::Truncated)
    } else if ProductType::of_byte(s[2]) is None {
        Some(DecodeError::UnknownDiscriminator)
    } else if s.len() < 23 {
        Some(DecodeError::Truncated)
    } else if ProductType::of_byte(s[2]) == Some(ProductType::MeatNetRepeater) && Hops::of_byte(
        s[22],
    ) is None {
        Some(DecodeError::UnknownDiscriminator)
    } else if s.len() < 24 {
        Some(DecodeError::Truncated)
    } else {
        None
    }
}

impl ManufacturerSpecificData {
    /// Whether the sub-byte fields hold what their bits can hold, so that
    /// each virtual sensor names one of the eight readings.
    pub open spec fn wf(self) -> bool {
        &&& self.probe_id < 8
        &&& self.virtual_ambient_sensor < 4
        &&& self.virtual_surface_sensor < 4
        &&& self.virtual_core_sensor < 8
        &&& self.network_information is Some <==> self.product_type
            == ProductType::MeatNetRepeater
    }

    /// Whether this value is what the first 24 bytes of `s` say.
    pub open spec fn decodes(self, s: Seq<u8>) -> bool {
        &&& Some(self.product_type) == ProductType::of_byte(s[2])
        &&& self.probe_serial_number == SerialNumber::at(s, 3)
        &&& self.temperatures@ == unpacked(s, 7)
        &&& self.probe_id == s[20] / 32
        &&& self.color == Color::of_bits(s[20] / 4)
        &&& self.mode == Mode::of_bits(s[20])
        &&& self.virtual_ambient_sensor == ambient_selector(s[21])
        &&& self.virtual_surface_sensor == surface_selector(s[21])
        &&& self.virtual_core_sensor == core_selector(s[21])
        &&& self.battery_status == BatteryStatus::of_bits(s[21])
        &&& self.network_information == if self.product_type == ProductType::MeatNetRepeater {
            match Hops::of_byte(s[22]) {
                Some(hop_count) => Some(NetworkInformation { hop_count }),
                None => None,
            }
        } else {
            None
        }
    }

    /// Whether the value is well formed: see `wf`.
    pub fn is_well_formed(&self) -> (b: bool)
        ensures
            b == self.wf(),
    {
        let repeater: bool = match self.product_type {
            ProductType::MeatNetRepeater => true,
            _ => false,
        };
        self.probe_id < 8 && self.virtual_ambient_sensor < 4 && self.virtual_surface_sensor < 4
            && self.virtual_core_sensor < 8 && self.network_information.is_some() == repeater
    }

    /// Decodes an advertisement that starts with `magic` from the head of
    /// `input`, and hands back what follows it.
    pub fn from_bytes_with_magic(input: &[u8], magic: [u8; 2]) -> (r: Result<
        (&[u8], ManufacturerSpecificData),
        DecodeError,
    >)
        ensures
            match r {
                Ok((rest, data)) => {
                    &&& advertisement_error(input@, magic@) is None
                    &&& data.decodes(input@)
                    &&& data.wf()
                    &&& rest@ == input@.subrange(24, input@.len() as int)
                },
                Err(e) => advertisement_error(input@, magic@) == Some(e),
            },
    {
        if input.len() < 2 {
            return Err(DecodeError::Truncated);
        }
        if input[0] != magic[0] || input[1] != magic[1] {
            return Err(DecodeError::MagicMismatch);
        }
        if input.len() < 3 {
            return Err(DecodeError::Truncated);
        }
        let product_type: ProductType = match ProductType::from_u8(input[2]) {
            Ok(p) => p,
            Err(e) => {
                return Err(e);
            },
        };
        if input.len() < 23 {
            return Err(DecodeError::Truncated);
        }
        let network_information: Option<NetworkInformation> = match product_type {
            ProductType::MeatNetRepeater => match Hops::from_u8(input[22]) {
                Ok(hop_count) => Some(NetworkInformation { hop_count }),
                Err(e) => {
                    return Err(e);
                },
            },
            _ => None,
        };
        if input.len() < ADVERTISEMENT_LEN {
            return Err(DecodeError::Truncated);
        }
        let id_byte: u8 = input[20];
        let sensor_byte: u8 = input[21];
        let data = ManufacturerSpecificData {
            product_type,
            probe_serial_number: SerialNumber { number: read_u32_le(input, 3) },
            temperatures: unpack_temperatures(input, 7),
            probe_id: id_byte / 32,
            color: Color::from_bits(id_byte / 4),
            mode: Mode::from_bits(id_byte),
            virtual_ambient_sensor: sensor_byte / 64,
            virtual_surface_sensor: (sensor_byte / 16) % 4,
            virtual_core_sensor: (sensor_byte / 2) % 8,
            battery_status: BatteryStatus::from_bits(sensor_byte),
            network_information,
        };
        let rest: &[u8] = vstd::slice::slice_subrange(input, ADVERTISEMENT_LEN, input.len());
        Ok((rest, data))
    }

    /// Decodes an advertisement with the current vendor magic from the head
    /// of `input`, and hands back what follows it.
    pub fn from_bytes(input: &[u8]) -> (r: Result<(&[u8], ManufacturerSpecificData), DecodeError>)
        ensures
            match r {
                Ok((rest, data)) => {
                    &&& advertisement_error(input@, ADVERTISEMENT_MAGIC@) is None
                    &&& data.decodes(input@)
                    &&& data.wf()
                    &&& rest@ == input@.subrange(24, input@.len() as int)
                },
                Err(e) => advertisement_error(input@, ADVERTISEMENT_MAGIC@) == Some(e),
            },
    {
        ManufacturerSpecificData::from_bytes_with_magic(input, ADVERTISEMENT_MAGIC)
    }

    /// Decodes a buffer that holds one advertisement with the current vendor
    /// magic and nothing else.
    pub fn try_from(input: &[u8]) -> (r: Result<ManufacturerSpecificData, DecodeError>)
        ensures
            match r {
                Ok(data) => {
                    &&& advertisement_error(input@, ADVERTISEMENT_MAGIC@) is None
                    &&& input@.len() == 24
                    &&& data.decodes(input@)
                    &&& data.wf()
                },
                Err(e) => match advertisement_error(input@, ADVERTISEMENT_MAGIC@) {
                    Some(cause) => e == cause,
                    None => e == DecodeError::TrailingBytes && input@.len() > 24,
                },
            },
    {
        match ManufacturerSpecificData::from_bytes(input) {
            Ok((rest, data)) => {
                if rest.len() > 0 {
                    Err(DecodeError::TrailingBytes)
                } else {
                    Ok(data)
                }
            },
            Err(e) => Err(e),
        }
    }

    /// The reading of the sensor that stands for the core of the food.
    pub fn get_core_temperature(&self) -> (t: &Temperature)
        requires
            self.wf(),
        ensures
            *t == self.temperatures[self.virtual_core_sensor as int],
    {
        &self.temperatures[self.virtual_core_sensor as usize]
    }

    /// The reading of the sensor that stands for the surface of the food.
    pub fn get_surface_temperature(&self) -> (t: &Temperature)
        requires
            self.wf(),
        ensures
            *t == self.temperatures[self.virtual_surface_sensor + 3],
    {
        &self.temperatures[self.virtual_surface_sensor as usize + SURFACE_SENSOR_BASE]
    }

    /// The reading of the sensor that stands for the air around the food.
    pub fn get_ambient_temperature(&self) -> (t: &Temperature)
        requires
            self.wf(),
        ensures
            *t == self.temperatures[self.virtual_ambient_sensor + 4],
    {
        &self.temperatures[self.virtual_ambient_sensor as usize + AMBIENT_SENSOR_BASE]
    }
}

} // verus!
