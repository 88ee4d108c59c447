[package]
name = "maxi_farm"
version = "0.1.0"
edition = "2021"
publish = false

[dependencies]
anchor-lang = { version = "0.30.1", features = ["event-cpi", "init-if-needed"] }
anchor-spl = { version = "0.30.1" }
solana-program = "1.18"
