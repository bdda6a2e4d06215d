[package]
name = "strategy_core_v3"
version = "0.1.0"
edition = "2021"
publish = false

[dependencies]
bincode = { version = "=2.0.1", features = ["derive"] }
sha2 = "=0.10.9"
