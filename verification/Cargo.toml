[package]
name = "nft_fusion_marketplace"
version = "0.1.0"
edition = "2021"
publish = false

[dependencies]
solana-program = "=1.18.26"
anchor-lang = { version = "=0.30.1", features = ["init-if-needed"] }
anchor-spl = { version = "=0.30.1", default-features = false, features = ["token", "associated_token", "token_2022"] }
pyth-sdk-solana = "=0.10.6"
