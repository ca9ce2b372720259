//! Which device to talk to, and in which dialect.

use vstd::prelude::*;
use crate::advertisement::ManufacturerSpecificData;
use crate::types::ProductType;

verus! {

/// Why no device was picked.
#[derive(Debug, PartialEq, Eq)]
pub struct FindDeviceError {
    pub details: String,
}

impl FindDeviceError {
    /// The words of the error.
    pub fn description(&self) -> (words: &str)
        ensures
            words@ == self.details@,
    {
        self.details.as_str()
    }
}

/// The two roles in which a device is talked to. The role decides the
/// dialect of the frames and where the log window comes from.
#[derive(Debug, Clone, Copy, PartialEq, Eq, Structural)]
pub enum DeviceKind {
    /// A repeater node: it relays the status of its probes unasked.
    Node,
    /// A probe that is connected to directly: its status is read from it.
    Probe,
}

/// The role in which to talk to a device of this product type, if any.
pub open spec fn kind_of_product(product_type: ProductType) -> Option<DeviceKind> {
    match product_type {
        ProductType::MeatNetRepeater => Some(DeviceKind::Node),
        ProductType::PredictiveProbe => Some(DeviceKind::Probe),
        ProductType::Unknown => None,
    }
}

/// Whether a device of type `found` is one that was asked for. Without a
/// wish every device is.
pub open spec fn wanted(wish: Option<ProductType>, found: ProductType) -> bool {
    match wish {
        Some(product_type) => product_type == found,
        None => true,
    }
}

/// Decides from its advertisement whether a device is the one to talk to,
/// and in which role: the device has to be of the product type asked for, if
/// one was asked for, and of a type that can be talked to at all.
pub fn select_device(
    data: &ManufacturerSpecificData,
    product_type: Option<ProductType>,
) -> (kind: Option<DeviceKind>)
    ensures
        kind == if wanted(product_type, data.product_type) {
            kind_of_product(data.product_type)
        } else {
            None
        },
{
    let found: ProductType = data.product_type;
    let is_wanted: bool = match product_type {
        Some(wish) => wish == found,
        None => true,
    };
    if !is_wanted {
        return None;
    }
    match found {
        ProductType::MeatNetRepeater => Some(DeviceKind::Node),
        ProductType::PredictiveProbe => Some(DeviceKind::Probe),
        ProductType::Unknown => None,
    }
}

} // verus!
