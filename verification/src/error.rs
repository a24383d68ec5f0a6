//! Failures that the class driver reports itself.

use vstd::prelude::*;

verus! {

/// What the driver refuses before anything reaches the bus.
#[derive(Clone, Copy, Debug, PartialEq, Eq, Structural)]
pub enum HidError {
    /// The report descriptor is longer than the 65535 bytes that the HID
    /// class descriptor can announce.
    DescriptorTooLong,
    /// The report is longer than one packet of the interrupt endpoint.
    PayloadTooLarge,
}

} // verus!
