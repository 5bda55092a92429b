[package]
name = "ore_miner"
version = "0.1.0"
edition = "2021"
publish = false

[dependencies]
core_affinity = "0.8"
drillx = "=2.0.1"
equix = "0.1"
ore-api = "=2.1.0"
rand = "0.8"
solana-program = "1.18"
solana-sdk = "1.18"
