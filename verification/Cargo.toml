[package]
name = "governance"
version = "0.1.0"
edition = "2021"
publish = false

[dependencies]
borsh = { version = "=1.8.1", features = ["derive"] }
solana-program = "=1.18.26"
spl-governance-tools = "=0.1.4"
spl-governance-addin-api = "=0.1.4"
