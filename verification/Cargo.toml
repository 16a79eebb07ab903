[package]
name = "yield_splitter"
version = "0.1.0"
edition = "2021"
publish = false

[dependencies]
anchor-lang = "=1.2.1"
anchor-spl = { version = "=1.2.1", default-features = false, features = ["token", "mint", "solana-v3"] }
pyth-solana-receiver-sdk = "=2.0.0"
