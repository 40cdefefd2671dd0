[package]
name = "raydium_swap"
version = "0.1.0"
edition = "2021"
publish = false

[dependencies]
rand = "=0.10.3"
serde = { version = "=1.0.229", features = ["derive"] }
serde_json = "=1.0.151"
solana-pubkey = "=3.0.0"
spl-associated-token-account = "=8.0.0"
spl-associated-token-account-interface = "=2.0.0"
