[package]
name = "origin_signer"
version = "0.1.0"
edition = "2021"
publish = false

[dependencies]
hmac-sha256 = "1"
chrono = "0.4"
