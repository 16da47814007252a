[package]
name = "blockchain"
version = "0.1.0"
edition = "2021"
publish = false

[dependencies]
ring = "0.16"
merkle = "1.11"
hex = "0.4"
cryptonight-rs = "*"
serde = { version = "1", features = ["derive"] }
serde_json = "1"
