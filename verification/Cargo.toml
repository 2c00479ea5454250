[package]
name = "solana-loader-v4-program"
version = "0.1.0"
edition = "2021"
publish = false

[dependencies]
borsh = "0.10"
num-derive = "0.4"
num-traits = "0.2"
serde = { version = "1", features = ["derive"] }
shank = "*"
solana-program = "2"
thiserror = "1"
