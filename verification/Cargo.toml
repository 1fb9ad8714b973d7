[package]
name = "fastar"
version = "0.1.0"
edition = "2021"
publish = false

[dependencies]
tar = "=0.4.46"
flate2 = { version = "=1.1.10", default-features = false, features = ["rust_backend"] }
