[package]
name = "crypto_wedding_cli"
version = "0.1.0"
edition = "2021"
publish = false

[dependencies]
anyhow = "1"
clap = { version = "3", features = ["derive"] }
dirs = "4"
dotenv = "0.15"
solana-sdk = "2"
