[package]
name = "picprog"
version = "0.1.0"
edition = "2021"
publish = false

[dependencies]
byteorder = "1"
serialport = { version = "3.3", default-features = false }
