[package]
name = "las"
version = "0.1.0"
edition = "2021"
publish = false

[dev-dependencies]
byteorder = "1"
