[package]
name = "l2-protocol"
version = "0.1.0"
edition = "2021"
publish = false

[dependencies]
bytes = "1"
crc-fast = "*"
serialport = { version = "*", default-features = false }
