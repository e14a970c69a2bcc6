[package]
name = "escrow"
version = "0.1.0"
edition = "2021"
publish = false

[dependencies]
solana-program = "=5.1.0"
solana-system-interface = { version = "=3.3.0", features = ["bincode"] }
spl-token = { version = "=9.0.0", default-features = false, features = ["no-entrypoint"] }
bincode = "=1.3.3"
borsh = "=1.8.1"
