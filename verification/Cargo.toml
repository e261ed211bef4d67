[package]
name = "onft"
version = "0.1.0"
edition = "2021"
publish = false

[dependencies]
anchor-lang = { version = "0.29.0", features = ["event-cpi", "init-if-needed"] }
anchor-spl = "0.29.0"
solana-helper = "0.1.0"
