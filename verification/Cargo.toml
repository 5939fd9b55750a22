[package]
name = "amm_migration"
version = "0.1.0"
edition = "2021"
publish = false

[dependencies]
integer-sqrt = "*"
solana-program = "*"
spl-token = { version = "*", features = ["no-entrypoint"] }
