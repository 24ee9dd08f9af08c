[package]
name = "warlock"
version = "0.1.0"
edition = "2021"
publish = false

[dependencies]
axum = { version = "=0.8.9", default-features = false, features = ["http1", "json", "tokio"] }
serde = { version = "=1.0.229", features = ["derive"] }
serde_json = "=1.0.151"
solana-account = "=3.4.0"
solana-account-decoder-client-types = "=3.1.14"
solana-commitment-config = "=3.1.1"
solana-pubkey = "=3.0.0"
solana-rpc-client = { version = "=3.1.14", default-features = false }
solana-rpc-client-api = "=3.1.14"
tokio = { version = "=1.53.2", features = ["macros", "net", "rt-multi-thread"] }
tracing = "=0.1.44"
