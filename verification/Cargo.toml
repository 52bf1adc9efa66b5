[package]
name = "nezha_staking"
version = "0.1.0"
edition = "2021"
publish = false

[dependencies]
solana-program = "=5.2.0"
borsh = { version = "=1.8.1", features = ["derive"] }
spl-token = "=9.0.0"
