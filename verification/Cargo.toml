[package]
name = "token_exchange"
version = "0.1.0"
edition = "2021"
publish = false

[dependencies]
borsh = "0.10"
num-derive = "0.4"
num-traits = "0.2"
solana-program = "1.18"
spl-token = { version = "4", default-features = false, features = ["no-entrypoint"] }
thiserror = "1"
