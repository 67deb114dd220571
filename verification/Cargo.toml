[package]
name = "blvm_commons"
version = "0.1.0"
edition = "2021"
publish = false

[dependencies]
sha2 = "=0.10.9"
chrono = "=0.4.45"
serde = { version = "=1.0.229", features = ["derive"] }
serde_json = "=1.0.154"
secp256k1 = { version = "=0.29.1", features = ["rand-std"] }
rand = "=0.8.8"
serde_yaml = "0.9"
