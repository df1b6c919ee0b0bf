[package]
name = "delta_ffi"
version = "0.1.0"
edition = "2021"
publish = false

[dependencies]
brotli = "*"
tokio = { version = "*", features = ["rt", "rt-multi-thread"] }
