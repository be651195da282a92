[package]
name = "usbd_ecm"
version = "0.1.0"
edition = "2021"
publish = false

[dependencies]
hex = { version = "0.4", default-features = false }
log = "0.4"
usb-device = "0.2"
smoltcp = "0.7"
