[package]
name = "rust_macios"
version = "0.1.0"
edition = "2021"
publish = false

[dependencies]
libc = "0.2"
objc = "0.2"
objc_id = "0.1"
