[package]
name = "mint_fixture"
version = "0.1.0"
edition = "2021"
publish = false

[dependencies]
solana-sdk = "2.2"
spl-token-2022 = "8"
