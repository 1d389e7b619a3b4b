[package]
name = "kora_fees"
version = "0.1.0"
edition = "2021"
publish = false

[dependencies]
serde = { version = "1", features = ["derive"] }
solana-sdk = "=2.3.1"
spl-associated-token-account = "=7.0.0"
spl-token = "=8.0.0"
utoipa = "6"
