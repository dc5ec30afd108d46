[package]
name = "plasma"
version = "0.1.0"
edition = "2021"
publish = false
rust-version = "1.95"

[dependencies]
anyhow = "=1.0.104"
bincode = "=1.3.3"
borsh = { version = "=1.8.1", features = ["derive"] }
bytemuck = { version = "=1.25.2", features = ["derive"] }
fixed = "=1.31.0"
solana-clock = { version = "=4.0.0", features = ["serde"] }
solana-instruction = "=4.0.0"
solana-pubkey = { version = "=4.4.0", features = ["curve25519", "borsh"] }
solana-sdk-ids = "=3.1.0"
spl-token-interface = "=3.0.0"
