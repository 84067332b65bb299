[package]
name = "serial_thread"
version = "0.1.0"
edition = "2021"
publish = false

[dependencies]
serial = "*"
serialport = { version = "*", default-features = false }
