[package]
name = "idl_verification"
version = "0.1.0"
edition = "2021"
publish = false

[dependencies]
anyhow = "1"
base64 = "=0.22.1"
bincode = "=1.3.3"
bs58 = "=0.5.1"
flate2 = "=1.1.10"
reqwest = { version = "0.12", default-features = false, features = ["blocking", "rustls-tls"] }
serde = { version = "1", features = ["derive"] }
serde_json = { version = "=1.0.154", features = ["preserve_order"] }
sha256 = { version = "=1.6.0", default-features = false }
solana-address = { version = "=2.9.0", features = ["curve25519", "decode", "std"] }
solana-compute-budget-interface = "=3.1.0"
solana-instruction = { version = "=3.5.1", features = ["std", "bincode"] }
solana-keypair = "=3.1.2"
solana-loader-v3-interface = { version = "=6.1.1", features = ["serde", "bincode"] }
solana-rpc-client = "=3.1.14"
solana-sdk-ids = "=3.1.0"
solana-system-interface = { version = "=3.3.0", features = ["bincode"] }
solana-transaction = { version = "=3.1.0", features = ["bincode"] }
