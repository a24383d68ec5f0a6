//! Descriptor records of a HID interface.

use vstd::prelude::*;

verus! {

/// Interface class code of human interface devices. This should be used as
/// `device_class` when building the device.
pub const USB_CLASS_HID: u8 = 0x03;

/// The interface subclass declares whether a device supports a boot
/// interface; this one does not.
pub const USB_SUBCLASS_HID: u8 = 0x00;

/// The interface protocol only has meaning for boot interfaces, otherwise it
/// is 0.
pub const USB_PROTOCOL_HID: u8 = 0x00;

/// Release 1.10 of the HID class definition, in binary-coded decimal.
pub const HID_VERSION: u16 = 0x0110;

/// Country code of hardware that is not localized.
pub const HID_COUNTRY_NONE: u8 = 0x00;

/// Descriptor type of the HID class descriptor.
pub const DT_HID: u8 = 0x21;

/// Descriptor type of a report descriptor.
pub const DT_REPORT: u8 = 0x22;

/// Largest report descriptor that the two length bytes can announce.
pub const MAX_REPORT_DESCRIPTOR_LEN: usize = 0xFFFF;

/// Packet size of the interrupt endpoint, in bytes.
pub const MAX_PACKET_SIZE: u16 = 64;

/// The interrupt-IN endpoint of a HID interface, as far as the class decides
/// about it. The address is the stack's to pick.
#[derive(Clone, Copy, Debug, PartialEq, Eq, Structural)]
pub struct InterruptIn {
    /// Largest packet that the endpoint carries, in bytes.
    pub max_packet_size: u16,
    /// Period in which the host polls the endpoint, in milliseconds.
    pub interval: u8,
}

/// One record that a HID interface adds to the configuration descriptor.
///
/// The interface and endpoint descriptors are written for a handle that the
/// stack issued, by the holder of that handle. The HID class descriptor
/// needs no handle: the driver writes it.
#[derive(Clone, Copy, Debug, PartialEq, Eq, Structural)]
pub enum Descriptor {
    /// The interface descriptor, with these fields.
    Interface {
        /// Number of the interface.
        number: u8,
        /// Class code.
        class: u8,
        /// Subclass code.
        sub_class: u8,
        /// Protocol code.
        protocol: u8,
    },
    /// The HID class descriptor.
    Hid,
    /// The endpoint descriptor of the interrupt-IN endpoint.
    Endpoint(InterruptIn),
}

/// What an emission of the configuration descriptor does next.
#[derive(Debug, PartialEq, Eq)]
pub enum Emit<E> {
    /// This record is due: have it written and come back with what the
    /// descriptor writer said.
    Write(Descriptor),
    /// The emission is over, with this result.
    Done(Result<(), E>),
}

/// The value of two bytes read as a little-endian number.
pub open spec fn le16(lo: u8, hi: u8) -> nat {
    (lo as nat) + 256 * (hi as nat)
}

/// The body of the HID class descriptor that announces a report descriptor
/// of `report_len` bytes: release 1.10, no country, one sub-descriptor of
/// type report, and its length, low byte first.
pub open spec fn hid_descriptor_body(report_len: nat) -> [u8; 7] {
    [
        0x10u8,
        0x01u8,
        0x00u8,
        0x01u8,
        0x22u8,
        (report_len % 256) as u8,
        (report_len / 256 % 256) as u8,
    ]
}

/// Splits a 16-bit value into its low and high byte.
pub fn to_le_bytes(value: u16) -> (bytes: (u8, u8))
    ensures
        bytes.0 == value % 256,
        bytes.1 == value / 256,
        le16(bytes.0, bytes.1) == value,
{
    ((value % 256) as u8, (value / 256) as u8)
}

/// Builds the body of the HID class descriptor for a report descriptor of
/// `report_len` bytes.
pub fn hid_descriptor(report_len: u16) -> (body: [u8; 7])
    ensures
        body == hid_descriptor_body(report_len as nat),
        le16(body[5], body[6]) == report_len,
{
    let version: (u8, u8) = to_le_bytes(HID_VERSION);
    let length: (u8, u8) = to_le_bytes(report_len);
    [version.0, version.1, HID_COUNTRY_NONE, 0x01, DT_REPORT, length.0, length.1]
}

/// The HID class descriptor for a report descriptor of `report_len` bytes as
/// it stands in the configuration descriptor: 9 bytes long, of type 0x21,
/// with the body of `hid_descriptor_body`.
pub open spec fn hid_record(report_len: nat) -> Seq<u8> {
    seq![0x09u8, 0x21u8] + hid_descriptor_body(report_len)@
}

/// The length bytes of the HID class descriptor, read little-endian, give
/// back the length of the report descriptor, for every length that fits in
/// 16 bits.
pub proof fn lemma_length_encoding(report_len: nat)
    requires
        report_len <= 0xFFFF,
    ensures
        le16(hid_descriptor_body(report_len)[5], hid_descriptor_body(report_len)[6])
            == report_len,
        hid_record(report_len).len() == 9,
        le16(hid_record(report_len)[7], hid_record(report_len)[8]) == report_len,
{
}

/// The interface descriptor of a HID interface without boot protocol.
pub open spec fn interface_record(number: u8) -> Descriptor {
    Descriptor::Interface { number, class: 0x03, sub_class: 0x00, protocol: 0x00 }
}

/// The next move of an emission that has handed `written` of `records` to
/// the descriptor writer, the last with the outcome `last`: a failure ends
/// the emission with that very failure, else the next record is due, and
/// after the last record the emission has succeeded.
pub open spec fn emit_step<E>(records: Seq<Descriptor>, written: nat, last: Result<(), E>) -> Emit<
    E,
> {
    match last {
        Err(e) => Emit::Done(Err(e)),
        Ok(_) => if written < records.len() {
            Emit::Write(records[written as int])
        } else {
            Emit::Done(Ok(()))
        },
    }
}

/// How an emission ends that has handed `written` records to the writer,
/// the last with the outcome `last`, if the writer answers the record at
/// position `i` with `answers(i)`.
pub open spec fn emission_result<E>(
    records: Seq<Descriptor>,
    answers: spec_fn(nat) -> Result<(), E>,
    written: nat,
    last: Result<(), E>,
) -> Result<(), E>
    decreases records.len() - written,
{
    match emit_step(records, written, last) {
        Emit::Done(result) => result,
        Emit::Write(_) => emission_result(records, answers, written + 1, answers(written)),
    }
}

/// How many records the writer has been handed when that emission ends.
pub open spec fn emission_length<E>(
    records: Seq<Descriptor>,
    answers: spec_fn(nat) -> Result<(), E>,
    written: nat,
    last: Result<(), E>,
) -> nat
    decreases records.len() - written,
{
    match emit_step(records, written, last) {
        Emit::Done(_) => written,
        Emit::Write(_) => emission_length(records, answers, written + 1, answers(written)),
    }
}

/// An emission hands the records to the writer in order, until the writer
/// refuses one. It ends with that refusal as it is, and after the last
/// record with success.
///
/// `refused` is the position of the first record that the writer refuses,
/// or the number of records if it takes them all. The emission is looked at
/// from any point before that, `written` records in.
pub proof fn lemma_emission<E>(
    records: Seq<Descriptor>,
    answers: spec_fn(nat) -> Result<(), E>,
    refused: nat,
    written: nat,
    last: Result<(), E>,
)
    requires
        written <= refused <= records.len(),
        last is Ok,
        forall|i: nat| i < refused ==> (#[trigger] answers(i)) is Ok,
        refused < records.len() ==> answers(refused) is Err,
    ensures
        emission_result(records, answers, written, last) == if refused < records.len() {
            answers(refused)
        } else {
            Ok(())
        },
        emission_length(records, answers, written, last) == if refused < records.len() {
            refused + 1
        } else {
            records.len()
        },
    decreases records.len() - written,
{
    if written < refused {
        lemma_emission(records, answers, refused, written + 1, answers(written));
    } else if written < records.len() {
        assert(emission_length(records, answers, written + 1, answers(written)) == written + 1);
    }
}

} // verus!
