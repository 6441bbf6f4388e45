[package]
name = "token_extensions"
version = "0.1.0"
edition = "2021"
publish = false

[dependencies]
anchor-lang = "=1.2.1"
anchor-spl = "=1.2.1"
spl-token-2022 = "=11.1.0"
spl-token-group-interface = "=0.7.2"
spl-token-metadata-interface = "=1.0.1"
solana-address = "=2.9.0"
solana-instruction = "=3.5.1"
solana-system-interface = { version = "=3.3.0", features = ["bincode"] }
