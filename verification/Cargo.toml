[package]
name = "staking_ledger"
version = "0.1.0"
edition = "2021"
publish = false

[dependencies]
csv = "1"
fixed = { version = "1", features = ["serde", "serde-str"] }
serde = { version = "1", features = ["derive"] }
