//! USB Human Interface Device (HID) class logic for microcontrollers, on top
//! of the `usb-device` stack.
//!
//! This crate provides the [`Hid`] driver as described by
//! [https://www.usb.org/hid]. The driver holds the rules of the class: which
//! records an interface adds to the configuration descriptor, which control
//! requests it answers, and which reports may go out on its interrupt
//! endpoint. It does not touch the bus. The handles that the stack issues for
//! the interface and the endpoint stay with a thin adapter, which asks the
//! driver what to do and does it; the HID class descriptor, which needs no
//! handle, the driver writes itself.
//!
//! To use the driver, implement [`HidReport`] for the structure of your
//! report.

pub mod control;
pub mod descriptor;
pub mod error;
pub mod hidclass;
pub mod report;
pub mod writer;

pub use crate::descriptor::USB_CLASS_HID;
pub use crate::hidclass::Hid;
pub use crate::report::HidReport;
