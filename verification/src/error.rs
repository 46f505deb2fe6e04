//! What can go wrong.

use vstd::prelude::*;

verus! {

/// The failures the driver tells apart.
#[derive(Clone, Copy, PartialEq, Eq, Debug, Structural)]
pub enum BusError {
    /// Driving a control line failed.
    ControlLineFault,
    /// Writing to the serial bus, or waiting for it to drain, failed.
    BusWriteFault,
    /// Pixel addressing was asked for in a rotation that has no mapping.
    UnsupportedRotation,
    /// Storage handed in for a frame buffer does not have the length of a frame.
    InvalidBufferSize,
}

impl BusError {
    /// Whether this is one of the two failures that the hardware can cause.
    pub open spec fn on_the_bus(self) -> bool {
        self == BusError::ControlLineFault || self == BusError::BusWriteFault
    }
}

} // verus!
