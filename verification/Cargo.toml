[package]
name = "usbd-hid-device"
version = "0.1.1"
edition = "2021"
publish = false

[dependencies]
usb-device = "0.2"
