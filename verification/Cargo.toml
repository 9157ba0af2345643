[package]
name = "anker"
version = "0.1.0"
edition = "2021"
publish = false

[dependencies]
solana-program = "1.18"
spl-token = { version = "4", features = ["no-entrypoint"] }
spl-token-swap = { version = "3", features = ["no-entrypoint"] }
serde = { version = "1", features = ["derive"] }
serde_json = "1"
clap = { version = "4", features = ["derive"] }
