[package]
name = "cp_swap"
version = "0.1.0"
edition = "2021"
publish = false

[dependencies]
anchor-lang = { version = "0.29.0", features = ["init-if-needed"] }
anchor-spl = "0.29.0"
anyhow = "1"
bincode = "1.3.3"
bs58 = "0.5"
serde_json = "1"
solana-sdk = "1.17"
spl-associated-token-account = { version = "2.2.0", features = ["no-entrypoint"] }
spl-memo = { version = "4.0.0", features = ["no-entrypoint"] }
spl-token = { version = "4.0.0", features = ["no-entrypoint"] }
spl-token-2022 = { version = "0.9.0", features = ["no-entrypoint"] }
