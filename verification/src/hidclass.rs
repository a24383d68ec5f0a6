//! USB HID class definitions.

use core::marker::PhantomData;
use usb_device::descriptor::DescriptorWriter;
use usb_device::UsbError;
use vstd::prelude::*;
use crate::control::{ControlRequest, Recipient, RequestType, GET_DESCRIPTOR};
use crate::descriptor::{
    emit_step, hid_descriptor, hid_record, interface_record, Descriptor, Emit, InterruptIn,
    DT_HID, DT_REPORT, MAX_PACKET_SIZE, MAX_REPORT_DESCRIPTOR_LEN, USB_CLASS_HID,
    USB_PROTOCOL_HID, USB_SUBCLASS_HID,
};
use crate::error::HidError;
use crate::report::{is_report_bytes, HidReport};
use crate::writer::{capacity, written};

verus! {

/// What a driver is, for its contracts: the interface number it answers to,
/// its endpoint, and the report descriptor of its report type.
pub struct HidModel {
    /// Number of the interface that the stack issued.
    pub interface: u8,
    /// The interrupt-IN endpoint that reports go out on.
    pub endpoint: InterruptIn,
    /// The bytes of the report descriptor.
    pub descriptor: Seq<u8>,
}

impl HidModel {
    /// The report descriptor can be announced in two length bytes, and the
    /// endpoint carries packets of 64 bytes.
    pub open spec fn wf(self) -> bool {
        &&& self.descriptor.len() <= 0xFFFF
        &&& self.endpoint.max_packet_size == 64
    }

    /// The records that the interface adds to the configuration descriptor,
    /// in the order in which they are written: its interface descriptor, its
    /// HID class descriptor, and the descriptor of its endpoint.
    pub open spec fn configuration_descriptors(self) -> Seq<Descriptor> {
        seq![interface_record(self.interface), Descriptor::Hid, Descriptor::Endpoint(self.endpoint)]
    }

    /// The bytes of the HID class descriptor in the configuration descriptor.
    pub open spec fn hid_descriptor(self) -> Seq<u8> {
        hid_record(self.descriptor.len())
    }

    /// The driver answers `request`: it goes to the driver's interface and
    /// asks for the report descriptor by the standard GET_DESCRIPTOR.
    pub open spec fn claims(self, request: ControlRequest) -> bool {
        &&& request.addressed_to(self.interface)
        &&& request.is_get_descriptor()
        &&& request.names_report_descriptor()
    }

    /// The reply that the driver attaches to `request`, if it claims it.
    pub open spec fn reply(self, request: ControlRequest) -> Option<Seq<u8>> {
        if self.claims(request) {
            Some(self.descriptor)
        } else {
            None
        }
    }
}

/// USB-HID device.
///
/// This is the type-safe driver for human interface devices. To use it, you
/// have to provide some structure for HID report with its corresponding HID
/// report descriptor.
pub struct Hid<R: HidReport> {
    data_if: u8,
    write_ep: InterruptIn,
    _report: PhantomData<R>,
}

impl<R: HidReport> View for Hid<R> {
    type V = HidModel;

    closed spec fn view(&self) -> HidModel {
        HidModel { interface: self.data_if, endpoint: self.write_ep, descriptor: R::DESCRIPTOR@ }
    }
}

impl<R: HidReport> Hid<R> {
    #[verifier::type_invariant]
    spec fn well_formed(self) -> bool {
        self@.wf()
    }

    /// Create a new `Hid` for the interface number that the stack issued.
    ///
    /// `poll_ms` is the period of host polling for the reports, milliseconds.
    /// Lower values mean lower latency but require more bandwidth of USB bus
    /// which may conflict with other devices on the same hub. Values around 10
    /// are reasonable for most devices. No value is refused.
    ///
    /// A report type whose descriptor is longer than 65535 bytes cannot be
    /// announced to the host and gets no driver.
    pub fn new(data_if: u8, poll_ms: u8) -> (r: Result<Self, HidError>)
        ensures
            r is Ok <==> R::DESCRIPTOR@.len() <= 0xFFFF,
            r matches Ok(hid) ==> hid@ == (HidModel {
                interface: data_if,
                endpoint: InterruptIn { max_packet_size: 64, interval: poll_ms },
                descriptor: R::DESCRIPTOR@,
            }) && hid@.wf(),
            r matches Err(e) ==> e == HidError::DescriptorTooLong,
    {
        if R::DESCRIPTOR.len() > MAX_REPORT_DESCRIPTOR_LEN {
            return Err(HidError::DescriptorTooLong);
        }
        Ok(
            Hid {
                data_if,
                write_ep: InterruptIn { max_packet_size: MAX_PACKET_SIZE, interval: poll_ms },
                _report: PhantomData,
            },
        )
    }

    /// The report descriptor of a driver is that of its report type.
    pub proof fn lemma_descriptor(self)
        ensures
            self@.descriptor == R::DESCRIPTOR@,
    {
    }

    /// Number of the interface that the driver answers to.
    pub fn interface(&self) -> (number: u8)
        ensures
            number == self@.interface,
    {
        self.data_if
    }

    /// Lists the records that the interface adds to the configuration
    /// descriptor, in the order in which they must be written.
    pub fn get_configuration_descriptors(&self) -> (records: [Descriptor; 3])
        ensures
            records@ == self@.configuration_descriptors(),
    {
        [
            Descriptor::Interface {
                number: self.data_if,
                class: USB_CLASS_HID,
                sub_class: USB_SUBCLASS_HID,
                protocol: USB_PROTOCOL_HID,
            },
            Descriptor::Hid,
            Descriptor::Endpoint(self.write_ep),
        ]
    }

    /// Writes the HID class descriptor of the interface through `writer`.
    ///
    /// The descriptor takes 9 bytes. It is appended if the buffer of the
    /// writer has room for them. If not, the writer's failure is handed on
    /// and nothing is written.
    pub fn write_hid_descriptor(&self, writer: &mut DescriptorWriter) -> (r: Result<(), UsbError>)
        ensures
            capacity(*final(writer)) == capacity(*old(writer)),
            r is Ok <==> written(*old(writer)).len() + 9 <= capacity(*old(writer)),
            r is Ok ==> written(*final(writer)) == written(*old(writer)) + self@.hid_descriptor(),
            r is Err ==> written(*final(writer)) == written(*old(writer)),
    {
        proof {
            use_type_invariant(self);
        }
        let report_len: usize = R::DESCRIPTOR.len();
        let body: [u8; 7] = hid_descriptor(report_len as u16);
        writer.write(DT_HID, body.as_slice())
    }

    /// Decides the next move of an emission of the configuration descriptor.
    ///
    /// `written` counts the records that went to the descriptor writer so
    /// far, and `last` is what the writer said to the latest of them (`Ok`
    /// before the first). The records come in the order of
    /// `get_configuration_descriptors`; for the HID class descriptor, `last`
    /// is the result of `write_hid_descriptor`. When the writer fails, for
    /// want of buffer space or otherwise, the emission ends with the writer's
    /// error as it is, and no further record is due.
    pub fn next_descriptor<E>(&self, written: usize, last: Result<(), E>) -> (step: Emit<E>)
        ensures
            step == emit_step(self@.configuration_descriptors(), written as nat, last),
    {
        match last {
            Err(e) => Emit::Done(Err(e)),
            Ok(_) => {
                let records: [Descriptor; 3] = self.get_configuration_descriptors();
                if written < 3 {
                    Emit::Write(records[written])
                } else {
                    Emit::Done(Ok(()))
                }
            },
        }
    }

    /// Answers a GET_DESCRIPTOR request that reached the interface: with the
    /// report descriptor, if that is the descriptor asked for.
    pub fn get_descriptor(&self, request: &ControlRequest) -> (reply: Option<&'static [u8]>)
        ensures
            reply is Some <==> request.names_report_descriptor(),
            reply matches Some(bytes) ==> bytes@ == R::DESCRIPTOR@ && bytes@ == self@.descriptor,
    {
        let (ty, idx): (u8, u8) = request.descriptor_type_index();
        if ty == DT_REPORT && idx == 0 {
            Some(R::DESCRIPTOR)
        } else {
            None
        }
    }

    /// Decides about a control request with direction device-to-host.
    ///
    /// `Some(bytes)` claims the request: the caller accepts the transfer with
    /// `bytes`, once. `None` leaves it unclaimed, for other classes or the
    /// default behaviour of the stack. The driver claims what goes to its
    /// own interface and asks for the report descriptor by the standard
    /// GET_DESCRIPTOR, and nothing else; the reply is the report descriptor.
    pub fn control_in(&self, request: &ControlRequest) -> (reply: Option<&'static [u8]>)
        ensures
            reply is Some <==> self@.claims(*request),
            reply matches Some(bytes) ==> bytes@ == R::DESCRIPTOR@ && self@.reply(*request)
                == Some(bytes@),
            // A request for the report descriptor of this interface is
            // claimed, and the reply is the report descriptor.
            (request.recipient == Recipient::Interface && request.index == self@.interface
                && request.request_type == RequestType::Standard && request.request
                == GET_DESCRIPTOR && request.descriptor_type() == DT_REPORT
                && request.descriptor_index() == 0) ==> (reply matches Some(bytes) && bytes@
                == self@.descriptor),
            // A request with the index of another interface is never claimed.
            request.index != self@.interface ==> reply is None,
            // A request to this interface for another descriptor is not
            // claimed.
            (request.addressed_to(self@.interface) && (request.descriptor_type() != DT_REPORT
                || request.descriptor_index() != 0)) ==> reply is None,
    {
        if !(request.recipient == Recipient::Interface && request.index == self.data_if as u16) {
            return None;
        }
        if request.request_type == RequestType::Standard && request.request == GET_DESCRIPTOR {
            self.get_descriptor(request)
        } else {
            None
        }
    }

    /// Admits report bytes to the interrupt endpoint: at most 64 of them make
    /// one packet, and more are refused, so that nothing is queued.
    pub fn packet<'b>(&self, bytes: &'b [u8]) -> (r: Result<&'b [u8], HidError>)
        ensures
            bytes@.len() <= 64 ==> r == Ok::<&[u8], HidError>(bytes),
            bytes@.len() > 64 ==> r == Err::<&[u8], HidError>(HidError::PayloadTooLarge),
    {
        proof {
            use_type_invariant(self);
        }
        if bytes.len() > self.write_ep.max_packet_size as usize {
            Err(HidError::PayloadTooLarge)
        } else {
            Ok(bytes)
        }
    }

    /// Send HID report.
    ///
    /// This function converts the report to bytes and admits them to the
    /// interrupt endpoint as `packet` does. On `Ok` the caller writes the
    /// packet to the endpoint as soon as possible, in one attempt; the
    /// driver neither queues nor retries.
    pub fn send_report<'r>(&self, report: &'r R) -> (r: Result<&'r [u8], HidError>)
        ensures
            r matches Ok(bytes) ==> is_report_bytes(report, bytes) && bytes@.len() <= 64,
            r matches Err(e) ==> e == HidError::PayloadTooLarge && exists|bytes: &[u8]|
                is_report_bytes(report, bytes) && bytes@.len() > 64,
    {
        let bytes: &[u8] = report.as_bytes();
        assert(is_report_bytes(report, bytes));
        self.packet(bytes)
    }

    /// The interrupt-IN endpoint that the driver needs from the stack: packets
    /// of 64 bytes, polled in the period given at construction.
    pub fn endpoint(&self) -> (endpoint: InterruptIn)
        ensures
            endpoint == self@.endpoint,
            endpoint.max_packet_size == 64,
    {
        proof {
            use_type_invariant(self);
        }
        self.write_ep
    }
}

/// Two drivers with the same report descriptor, the same interface number
/// and the same endpoint emit the same records, step by step.
pub proof fn lemma_emission_deterministic<E>(a: HidModel, b: HidModel)
    requires
        a.descriptor == b.descriptor,
        a.interface == b.interface,
        a.endpoint == b.endpoint,
    ensures
        a.configuration_descriptors() == b.configuration_descriptors(),
        a.hid_descriptor() == b.hid_descriptor(),
        forall|written: nat, last: Result<(), E>|
            emit_step(a.configuration_descriptors(), written, last) == emit_step(
                b.configuration_descriptors(),
                written,
                last,
            ),
{
}

} // verus!
