//! The descriptor writer of the `usb-device` stack, as the driver uses it.
//!
//! The stack hands a class a `DescriptorWriter` over the buffer in which it
//! assembles the configuration descriptor. What this module states of the
//! writer is taken on trust from the source of `usb-device`.

use usb_device::descriptor::DescriptorWriter;
use usb_device::UsbError;
use vstd::prelude::*;

verus! {

/// `usb_device::descriptor::DescriptorWriter`, a cursor into a byte buffer.
#[verifier::external_type_specification]
#[verifier::external_body]
pub struct ExDescriptorWriter<'a>(DescriptorWriter<'a>);

/// `usb_device::UsbError`, the error of every operation of the stack.
#[verifier::external_type_specification]
#[verifier::external_body]
pub struct ExUsbError(UsbError);

/// The bytes that have been written through `writer`: its buffer from the
/// start up to `DescriptorWriter::position`.
pub uninterp spec fn written(writer: DescriptorWriter) -> Seq<u8>;

/// The length of the buffer that `writer` was made for.
pub uninterp spec fn capacity(writer: DescriptorWriter) -> nat;

/// `DescriptorWriter::write` appends one descriptor: a length byte that
/// counts the whole descriptor, the descriptor type, and the given body. It
/// does so if the body has at most 254 bytes and the descriptor fits in what
/// is left of the buffer. Otherwise it fails and leaves what is written as it
/// was. The length byte is the low byte of the length, which differs from
/// the length for a body of 254 bytes only.
pub assume_specification<'a>[ DescriptorWriter::<'a>::write ](
    writer: &mut DescriptorWriter<'a>,
    descriptor_type: u8,
    descriptor: &[u8],
) -> (r: usb_device::Result<()>)
    ensures
        capacity(*final(writer)) == capacity(*old(writer)),
        r is Ok <==> descriptor@.len() <= 254 && written(*old(writer)).len() + 2
            + descriptor@.len() <= capacity(*old(writer)),
        r is Ok ==> written(*final(writer)) == written(*old(writer)) + seq![
            ((descriptor@.len() + 2) % 256) as u8,
            descriptor_type,
        ] + descriptor@,
        r is Err ==> written(*final(writer)) == written(*old(writer)),
;

} // verus!
