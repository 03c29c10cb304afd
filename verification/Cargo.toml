[package]
name = "starpass"
version = "0.1.0"
edition = "2021"
publish = false

[dependencies]
soroban-sdk = { version = "=21.7.7", features = ["alloc"] }
