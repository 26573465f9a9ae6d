[package]
name = "secret_dao"
version = "0.1.0"
edition = "2021"
publish = false

[dependencies]
solana-program = "2.1"
spl-token = { version = "7.0", features = ["no-entrypoint"] }
spl-associated-token-account = { version = "6.0", features = ["no-entrypoint"] }
