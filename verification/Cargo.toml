[package]
name = "usb_bulk"
version = "0.1.0"
edition = "2021"
publish = false

[dependencies]
rusb = "*"
rustler = "*"
