//! The pairing of a report value with its report descriptor.

use vstd::prelude::*;

verus! {

/// Trait for types that can be used as HID reports.
///
/// You have to implement this trait for your HID report structure. It binds
/// the structure to the descriptor that tells the host how its bytes are laid
/// out. It is wise to use macros to generate the `DESCRIPTOR` constant, but it
/// is still possible to write it manually.
///
/// # Example
/// ```
/// use usbd_hid_device::HidReport;
///
/// /// A mouse with three buttons and a wheel.
/// pub struct MouseReport {
///     bytes: [u8; 4],
/// }
///
/// impl HidReport for MouseReport {
///     const DESCRIPTOR: &'static [u8] = &[
///         0x05, 0x01,     // USAGE_PAGE Generic Desktop
///         0x09, 0x02,     // USAGE Mouse
///         0xa1, 0x01,     // COLLECTION Application
///             0x09, 0x01,     // USAGE Pointer
///             0xa1, 0x00,     // COLLECTION Physical
///
///                 0x05, 0x09,     // USAGE_PAGE Button
///                 0x19, 0x01,     // USAGE_MINIMUM Button 1
///                 0x29, 0x03,     // USAGE_MAXIMUM Button 3
///                 0x15, 0x00,     // LOGICAL_MINIMUM 0
///                 0x25, 0x01,     // LOGICAL_MAXIMUM 1
///                 0x95, 0x03,     // REPORT_COUNT 3
///                 0x75, 0x01,     // REPORT_SIZE 1
///                 0x81, 0x02,     // INPUT Data,Var,Abs
///                 0x95, 0x01,     // REPORT_COUNT 1
///                 0x75, 0x05,     // REPORT_SIZE 5
///                 0x81, 0x01,     // INPUT Cnst,Ary,Abs
///
///                 0x05, 0x01,     // USAGE_PAGE Generic Desktop
///                 0x09, 0x30,     // USAGE X
///                 0x09, 0x31,     // USAGE Y
///                 0x09, 0x38,     // USAGE Wheel
///                 0x15, 0x81,     // LOGICAL_MINIMUM -127
///                 0x25, 0x7f,     // LOGICAL_MAXIMUM 127
///                 0x75, 0x08,     // REPORT_SIZE 8
///                 0x95, 0x03,     // REPORT_COUNT 3
///                 0x81, 0x06,     // INPUT Data,Var,Rel
///
///             0xc0,           // END COLLECTION
///         0xc0,           // END COLLECTION
///     ];
///
///     fn as_bytes(&self) -> &[u8] {
///         &self.bytes
///     }
/// }
/// ```
pub trait HidReport {
    /// HID report descriptor as byte array. It is fixed for the life of the
    /// program, and at most 65535 bytes long.
    ///
    /// The complete manual for HID report descriptors can be found at
    /// [https://www.usb.org/document-library/hid-usage-tables-112]
    const DESCRIPTOR: &'static [u8];

    /// The report value as the bytes that go to the host. They MUST match the
    /// format described in `DESCRIPTOR`.
    fn as_bytes(&self) -> &[u8];
}

/// `bytes` is what the conversion of `report` to bytes gave. Nothing else is
/// known of a report type's conversion.
pub open spec fn is_report_bytes<R: HidReport>(report: &R, bytes: &[u8]) -> bool {
    call_ensures(R::as_bytes, (report,), bytes)
}

} // verus!
