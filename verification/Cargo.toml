[package]
name = "spl_token_minter"
version = "0.1.0"
edition = "2021"
publish = false

[dependencies]
solana-program = "*"
spl-token = { version = "*", features = ["no-entrypoint"] }
spl-associated-token-account = { version = "*", features = ["no-entrypoint"] }
