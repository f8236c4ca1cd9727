[package]
name = "mooncake_transfer_engine"
version = "0.1.0"
edition = "2021"
publish = false

[dependencies]
anyhow = "1"
