[package]
name = "solana_vault_contract"
version = "0.1.0"
edition = "2021"

[dependencies]
borsh = "0.10"
solana-program = "1.18"
spl-token = { version = "4.0", features = ["no-entrypoint"] }
thiserror = "1.0"
