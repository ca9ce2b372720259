//! The small value types that advertisements, status records and messages
//! share, each with its place on the wire.

use vstd::prelude::*;
use crate::error::DecodeError;
use crate::wire::{u32_at, u32_le};

verus! {

/// What kind of device is speaking.
#[derive(Debug, Clone, Copy, PartialEq, Eq, Structural)]
pub enum ProductType {
    Unknown,
    PredictiveProbe,
    MeatNetRepeater,
}

impl ProductType {
    /// The product type that byte `b` stands for, if any.
    pub open spec fn of_byte(b: u8) -> Option<ProductType> {
        if b == 0 {
            Some(ProductType::Unknown)
        } else if b == 1 {
            Some(ProductType::PredictiveProbe)
        } else if b == 2 {
            Some(ProductType::MeatNetRepeater)
        } else {
            None
        }
    }

    /// The byte that stands for this product type.
    pub open spec fn byte(self) -> u8 {
        match self {
            ProductType::Unknown => 0,
            ProductType::PredictiveProbe => 1,
            ProductType::MeatNetRepeater => 2,
        }
    }

    /// The value that byte `b` stands for. Fails where it stands for none.
    pub fn from_u8(b: u8) -> (r: Result<ProductType, DecodeError>)
        ensures
            r == match ProductType::of_byte(b) {
                Some(p) => Ok::<ProductType, DecodeError>(p),
                None => Err(DecodeError::UnknownDiscriminator),
            },
    {
        match b {
            0 => Ok(ProductType::Unknown),
            1 => Ok(ProductType::PredictiveProbe),
            2 => Ok(ProductType::MeatNetRepeater),
            _ => Err(DecodeError::UnknownDiscriminator),
        }
    }

    /// The byte that stands for this value.
    pub fn to_u8(&self) -> (b: u8)
        ensures
            b == self.byte(),
            ProductType::of_byte(b) == Some(*self),
    {
        match self {
            ProductType::Unknown => 0,
            ProductType::PredictiveProbe => 1,
            ProductType::MeatNetRepeater => 2,
        }
    }
}

/// How the probe is being used.
#[derive(Debug, Clone, Copy, PartialEq, Eq, Structural)]
pub enum Mode {
    Normal,
    InstantRead,
    Reserved,
    Errored,
}

impl Mode {
    /// The mode that the two low bits of `bits` select.
    pub open spec fn of_bits(bits: u8) -> Mode {
        if bits % 4 == 0 {
            Mode::Normal
        } else if bits % 4 == 1 {
            Mode::InstantRead
        } else if bits % 4 == 2 {
            Mode::Reserved
        } else {
            Mode::Errored
        }
    }

    /// The value that the low bits of `bits` select. The bits above them are not looked at.
    pub fn from_bits(bits: u8) -> (m: Mode)
        ensures
            m == Mode::of_bits(bits),
    {
        match bits % 4 {
            0 => Mode::Normal,
            1 => Mode::InstantRead,
            2 => Mode::Reserved,
            _ => Mode::Errored,
        }
    }
}

/// The colour of the probe's silicone ring.
#[derive(Debug, Clone, Copy, PartialEq, Eq, Structural)]
pub enum Color {
    Yellow,
    Grey,
    Reserved2,
    Reserved3,
    Reserved4,
    Reserved5,
    Reserved6,
    Reserved7,
}

impl Color {
    /// The colour that the three low bits of `bits` select.
    pub open spec fn of_bits(bits: u8) -> Color {
        if bits % 8 == 0 {
            Color::Yellow
        } else if bits % 8 == 1 {
            Color::Grey
        } else if bits % 8 == 2 {
            Color::Reserved2
        } else if bits % 8 == 3 {
            Color::Reserved3
        } else if bits % 8 == 4 {
            Color::Reserved4
        } else if bits % 8 == 5 {
            Color::Reserved5
        } else if bits % 8 == 6 {
            Color::Reserved6
        } else {
            Color::Reserved7
        }
    }

    /// The value that the low bits of `bits` select. The bits above them are not looked at.
    pub fn from_bits(bits: u8) -> (c: Color)
        ensures
            c == Color::of_bits(bits),
    {
        match bits % 8 {
            0 => Color::Yellow,
            1 => Color::Grey,
            2 => Color::Reserved2,
            3 => Color::Reserved3,
            4 => Color::Reserved4,
            5 => Color::Reserved5,
            6 => Color::Reserved6,
            _ => Color::Reserved7,
        }
    }
}

/// Whether the probe's battery still holds enough charge.
#[derive(Debug, Clone, Copy, PartialEq, Eq, Structural)]
pub enum BatteryStatus {
    Okay,
    LowBattery,
}

impl BatteryStatus {
    /// The battery status that the lowest bit of `bits` selects.
    pub open spec fn of_bits(bits: u8) -> BatteryStatus {
        if bits % 2 == 0 {
            BatteryStatus::Okay
        } else {
            BatteryStatus::LowBattery
        }
    }

    /// The value that the low bits of `bits` select. The bits above them are not looked at.
    pub fn from_bits(bits: u8) -> (s: BatteryStatus)
        ensures
            s == BatteryStatus::of_bits(bits),
    {
        if bits % 2 == 0 {
            BatteryStatus::Okay
        } else {
            BatteryStatus::LowBattery
        }
    }
}

/// How many hops lie between a probe and the node that relays it.
#[derive(Debug, Clone, Copy, PartialEq, Eq, Structural)]
pub enum Hops {
    One,
    Two,
    Three,
    Four,
}

impl Hops {
    /// The hop count that byte `b` stands for, if any.
    pub open spec fn of_byte(b: u8) -> Option<Hops> {
        if b == 0 {
            Some(Hops::One)
        } else if b == 1 {
            Some(Hops::Two)
        } else if b == 2 {
            Some(Hops::Three)
        } else if b == 3 {
            Some(Hops::Four)
        } else {
            None
        }
    }

    /// The byte that stands for this hop count.
    pub open spec fn byte(self) -> u8 {
        match self {
            Hops::One => 0,
            Hops::Two => 1,
            Hops::Three => 2,
            Hops::Four => 3,
        }
    }

    /// The value that byte `b` stands for. Fails where it stands for none.
    pub fn from_u8(b: u8) -> (r: Result<Hops, DecodeError>)
        ensures
            r == match Hops::of_byte(b) {
                Some(h) => Ok::<Hops, DecodeError>(h),
                None => Err(DecodeError::UnknownDiscriminator),
            },
    {
        match b {
            0 => Ok(Hops::One),
            1 => Ok(Hops::Two),
            2 => Ok(Hops::Three),
            3 => Ok(Hops::Four),
            _ => Err(DecodeError::UnknownDiscriminator),
        }
    }

    /// The byte that stands for this value.
    pub fn to_u8(&self) -> (b: u8)
        ensures
            b == self.byte(),
            Hops::of_byte(b) == Some(*self),
    {
        match self {
            Hops::One => 0,
            Hops::Two => 1,
            Hops::Three => 2,
            Hops::Four => 3,
        }
    }
}

/// What a prediction aims at.
#[derive(Debug, Clone, Copy, PartialEq, Eq, Structural)]
pub enum PredictionMode {
    NoPrediction,
    TimeToRemoval,
    RemovalAndResting,
    Reserved,
}

impl PredictionMode {
    /// The mode that the two low bits of `bits` select.
    pub open spec fn of_bits(bits: u8) -> PredictionMode {
        if bits % 4 == 0 {
            PredictionMode::NoPrediction
        } else if bits % 4 == 1 {
            PredictionMode::TimeToRemoval
        } else if bits % 4 == 2 {
            PredictionMode::RemovalAndResting
        } else {
            PredictionMode::Reserved
        }
    }

    /// The value that the low bits of `bits` select. The bits above them are not looked at.
    pub fn from_bits(bits: u8) -> (m: PredictionMode)
        ensures
            m == PredictionMode::of_bits(bits),
    {
        match bits % 4 {
            0 => PredictionMode::NoPrediction,
            1 => PredictionMode::TimeToRemoval,
            2 => PredictionMode::RemovalAndResting,
            _ => PredictionMode::Reserved,
        }
    }
}

/// Which moment a prediction tells of.
#[derive(Debug, Clone, Copy, PartialEq, Eq, Structural)]
pub enum PredictionType {
    NoPrediction,
    Removal,
    Resting,
    Reserved,
}

impl PredictionType {
    /// The type that the two low bits of `bits` select.
    pub open spec fn of_bits(bits: u8) -> PredictionType {
        if bits % 4 == 0 {
            PredictionType::NoPrediction
        } else if bits % 4 == 1 {
            PredictionType::Removal
        } else if bits % 4 == 2 {
            PredictionType::Resting
        } else {
            PredictionType::Reserved
        }
    }

    /// The value that the low bits of `bits` select. The bits above them are not looked at.
    pub fn from_bits(bits: u8) -> (t: PredictionType)
        ensures
            t == PredictionType::of_bits(bits),
    {
        match bits % 4 {
            0 => PredictionType::NoPrediction,
            1 => PredictionType::Removal,
            2 => PredictionType::Resting,
            _ => PredictionType::Reserved,
        }
    }
}

/// How far a prediction has come.
#[derive(Debug, Clone, Copy, PartialEq, Eq, Structural)]
pub enum PredictionState {
    ProbeNotInserted,
    ProbeInserted,
    Warming,
    Predicting,
    RemovalPredictionDone,
    ReservedState5,
    ReservedState6,
    ReservedState7,
    ReservedState8,
    ReservedState9,
    ReservedState10,
    ReservedState11,
    ReservedState12,
    ReservedState13,
    ReservedState14,
    Unknown,
}

impl PredictionState {
    /// The state that the four low bits of `bits` select.
    pub open spec fn of_bits(bits: u8) -> PredictionState {
        if bits % 16 == 0 {
            PredictionState::ProbeNotInserted
        } else if bits % 16 == 1 {
            PredictionState::ProbeInserted
        } else if bits % 16 == 2 {
            PredictionState::Warming
        } else if bits % 16 == 3 {
            PredictionState::Predicting
        } else if bits % 16 == 4 {
            PredictionState::RemovalPredictionDone
        } else if bits % 16 == 5 {
            PredictionState::ReservedState5
        } else if bits % 16 == 6 {
            PredictionState::ReservedState6
        } else if bits % 16 == 7 {
            PredictionState::ReservedState7
        } else if bits % 16 == 8 {
            PredictionState::ReservedState8
        } else if bits % 16 == 9 {
            PredictionState::ReservedState9
        } else if bits % 16 == 10 {
            PredictionState::ReservedState10
        } else if bits % 16 == 11 {
            PredictionState::ReservedState11
        } else if bits % 16 == 12 {
            PredictionState::ReservedState12
        } else if bits % 16 == 13 {
            PredictionState::ReservedState13
        } else if bits % 16 == 14 {
            PredictionState::ReservedState14
        } else {
            PredictionState::Unknown
        }
    }

    /// The value that the low bits of `bits` select. The bits above them are not looked at.
    pub fn from_bits(bits: u8) -> (s: PredictionState)
        ensures
            s == PredictionState::of_bits(bits),
    {
        match bits % 16 {
            0 => PredictionState::ProbeNotInserted,
            1 => PredictionState::ProbeInserted,
            2 => PredictionState::Warming,
            3 => PredictionState::Predicting,
            4 => PredictionState::RemovalPredictionDone,
            5 => PredictionState::ReservedState5,
            6 => PredictionState::ReservedState6,
            7 => PredictionState::ReservedState7,
            8 => PredictionState::ReservedState8,
            9 => PredictionState::ReservedState9,
            10 => PredictionState::ReservedState10,
            11 => PredictionState::ReservedState11,
            12 => PredictionState::ReservedState12,
            13 => PredictionState::ReservedState13,
            14 => PredictionState::ReservedState14,
            _ => PredictionState::Unknown,
        }
    }
}

/// Where a probe sits in the network of repeaters.
#[derive(Debug, Clone, Copy, PartialEq, Eq, Structural)]
pub struct NetworkInformation {
    pub hop_count: Hops,
}

/// The number that identifies a probe. It joins advertisements, status
/// records and log records of one probe. Four bytes on the wire, least
/// significant first.
#[derive(Debug, Clone, Copy, PartialEq, Eq, Structural)]
pub struct SerialNumber {
    pub number: u32,
}

impl SerialNumber {
    /// The four bytes of the serial number on the wire.
    pub open spec fn encoded(self) -> Seq<u8> {
        u32_le(self.number)
    }

    /// The serial number in the four bytes of `s` from `at` on.
    pub open spec fn at(s: Seq<u8>, at: int) -> SerialNumber {
        SerialNumber { number: u32_at(s, at) }
    }
}

/// The Bluetooth address of a node.
#[derive(Debug, Clone, Copy, PartialEq, Eq)]
pub struct MacAddress {
    pub address: [u8; 6],
}

} // verus!
