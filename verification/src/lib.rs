//! Codec and log synchronisation for a family of wireless meat thermometers.
//!
//! The probes and repeater nodes speak a UART-over-BLE protocol. This crate
//! holds the parts of a client that do not touch the radio: the bit-exact
//! frame codec of both dialects, the decoder of the advertisement payload and
//! of the packed sensor readings, and the engine that works out which log
//! records are still missing and batches the requests for them.

pub mod advertisement;
pub mod checksum;
pub mod device;
pub mod encapsulate;
pub mod error;
pub mod events;
mod random;
pub mod received;
pub mod runs;
pub mod session;
pub mod status;
pub mod sync;
pub mod temperature;
pub mod types;
pub mod uart;
pub mod wire;

pub use crate::advertisement::ManufacturerSpecificData;
pub use crate::encapsulate::EncapsulatableMessage;
pub use crate::status::ProbeStatus;
pub use crate::types::{
    BatteryStatus, Color, Hops, MacAddress, Mode, NetworkInformation, ProductType, SerialNumber,
};
