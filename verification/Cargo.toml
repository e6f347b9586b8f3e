[package]
name = "first"
version = "0.1.0"
edition = "2021"
publish = false

[dependencies]
libc = "0.2"
uuid = { version = "1", features = ["v4"] }
