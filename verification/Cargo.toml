[package]
name = "wallet_contract"
version = "0.1.0"
edition = "2021"
publish = false

[dependencies]
grin_core = "5"
grin_util = "5"
grin_keychain = "5"
ed25519-dalek = "2"
x25519-dalek = { version = "2", features = ["static_secrets"] }
byteorder = "1"
chrono = "0.4"
blake2-rfc = "0.2"
serde = { version = "1", features = ["derive"] }
