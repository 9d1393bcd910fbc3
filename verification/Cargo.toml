[package]
name = "deflate_stream"
version = "0.1.0"
edition = "2021"
publish = false

[dependencies]
libz-sys = "*"

[dev-dependencies]
flate2 = "*"
