[package]
name = "solana_rows"
version = "0.1.0"
edition = "2021"
publish = false

[dependencies]
anyhow = "1"
bs58 = "0.5"
substreams = "0.5"
substreams-database-change = "1.3"
substreams-solana = "0.13"
