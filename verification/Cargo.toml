[package]
name = "aardvark-rs"
version = "0.1.0"
edition = "2021"
publish = false

[dependencies]
embedded-hal = "1.0.0"
libloading = "0.8"
libc = "0.2"
