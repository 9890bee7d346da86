[package]
name = "cle_coin"
version = "0.1.0"
edition = "2021"
publish = false

[dependencies]
parity-scale-codec = "*"
serde_json = "*"
