[package]
name = "solana_low_latency"
version = "0.1.0"
edition = "2021"
publish = false

[dependencies]
base64 = "=0.22.1"
bincode = "=1.3.3"
reqwest = { version = "=0.12.28", default-features = false, features = ["json"] }
serde_json = "=1.0.154"
solana-rpc-client = "=3.1.14"
solana-rpc-client-api = "=3.1.14"
solana-commitment-config = "=3.1.1"
solana-compute-budget-interface = "=3.1.0"
solana-hash = { version = "=4.7.0", features = ["atomic"] }
solana-keypair = "3"
solana-message = { version = "=3.1.0", features = ["serde"] }
solana-pubkey = "=4.4.0"
solana-transaction = { version = "=3.1.0", features = ["serde", "bincode"] }
tokio = { version = "1", features = ["full"] }
