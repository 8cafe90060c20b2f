[package]
name = "btc_canister"
version = "0.1.0"
edition = "2021"
publish = false

[dependencies]
bitcoin = "0.28"
bitcoin_hashes = "0.10"
