[package]
name = "tower-defense"
version = "0.1.0"
edition = "2021"
publish = false

[dependencies]
bs58 = "0.5"
ed25519-dalek = { version = "2", features = ["serde"] }
jsonrpsee = { version = "0.25", features = ["server", "client-core"] }
multihash = "0.19"
quick-protobuf = "0.8"
serde = { version = "1", features = ["derive"] }
serde_json = { version = "1", features = ["raw_value"] }
sha2 = "0.10"
thiserror = "2"
