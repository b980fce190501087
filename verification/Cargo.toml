[package]
name = "avalanche_types"
version = "0.1.0"
edition = "2021"
publish = false

[dependencies]
hex = "0.4"
ring = "0.17"
p256 = { version = "0.13", features = ["ecdsa"] }
blst = "0.3"
serde = { version = "1", features = ["derive"] }
