[package]
name = "nft_issuance"
version = "0.1.0"
edition = "2021"
publish = false

[dependencies]
solana-program = "=2.3.0"
mpl-token-metadata = "=4.1.2"
spl-token = { version = "=4.0.2", features = ["no-entrypoint"] }
anchor-lang = "=0.28.0"
anchor-spl = "=0.28.0"
