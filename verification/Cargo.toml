[package]
name = "usbserial"
version = "0.1.0"
edition = "2021"
publish = false

[dependencies]
usb-device = "0.3"
usbd-serial = "0.2"
ushell = "*"
nb = "*"
