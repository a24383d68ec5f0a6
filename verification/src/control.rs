//! Control requests as the class driver reads them.

use vstd::prelude::*;
use crate::descriptor::DT_REPORT;

verus! {

/// Request code of the standard request GET_DESCRIPTOR.
pub const GET_DESCRIPTOR: u8 = 6;

/// Control request type.
#[derive(Clone, Copy, Debug, PartialEq, Eq, Structural)]
pub enum RequestType {
    /// Request is a USB standard request.
    Standard,
    /// Request is intended for a USB class.
    Class,
    /// Request is vendor-specific.
    Vendor,
    /// Reserved.
    Reserved,
}

/// Control request recipient.
#[derive(Clone, Copy, Debug, PartialEq, Eq, Structural)]
pub enum Recipient {
    /// Request is intended for the entire device.
    Device,
    /// Request is intended for an interface; `index` names the interface.
    Interface,
    /// Request is intended for an endpoint; `index` names the endpoint.
    Endpoint,
    /// None of the above.
    Other,
    /// Reserved.
    Reserved,
}

/// The fields of a SETUP packet that decide whether a class answers it.
#[derive(Clone, Copy, Debug, PartialEq, Eq, Structural)]
pub struct ControlRequest {
    /// Type of the request.
    pub request_type: RequestType,
    /// Recipient of the request.
    pub recipient: Recipient,
    /// Request code.
    pub request: u8,
    /// Request value. For GET_DESCRIPTOR the high byte is the descriptor
    /// type and the low byte the descriptor index.
    pub value: u16,
    /// Request index. For a request to an interface, the interface number.
    pub index: u16,
}

impl ControlRequest {
    /// Descriptor type that a GET_DESCRIPTOR request asks for.
    pub open spec fn descriptor_type(self) -> u8 {
        (self.value / 256) as u8
    }

    /// Descriptor index that a GET_DESCRIPTOR request asks for.
    pub open spec fn descriptor_index(self) -> u8 {
        (self.value % 256) as u8
    }

    /// The request goes to the interface numbered `interface`.
    pub open spec fn addressed_to(self, interface: u8) -> bool {
        &&& self.recipient == Recipient::Interface
        &&& self.index == interface
    }

    /// The request is the standard GET_DESCRIPTOR.
    pub open spec fn is_get_descriptor(self) -> bool {
        &&& self.request_type == RequestType::Standard
        &&& self.request == GET_DESCRIPTOR
    }

    /// The descriptor asked for is the report descriptor, which has index 0.
    pub open spec fn names_report_descriptor(self) -> bool {
        &&& self.descriptor_type() == DT_REPORT
        &&& self.descriptor_index() == 0
    }

    /// Gets the descriptor type and index from the value field of a
    /// GET_DESCRIPTOR request.
    pub fn descriptor_type_index(&self) -> (r: (u8, u8))
        ensures
            r.0 == self.descriptor_type(),
            r.1 == self.descriptor_index(),
    {
        ((self.value / 256) as u8, (self.value % 256) as u8)
    }
}

} // verus!
