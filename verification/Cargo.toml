[package]
name = "nft_program"
version = "0.1.0"
edition = "2021"
publish = false

[dependencies]
anchor-lang = { version = "=0.30.1", features = ["event-cpi"] }
anchor-spl = { version = "=0.30.1", features = ["metadata"] }
solana-security-txt = "=1.1.3"
