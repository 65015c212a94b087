[package]
name = "alvearium"
version = "0.1.0"
edition = "2021"
publish = false

[dependencies]
secp256k1 = { version = "*", features = ["recovery"] }
sha2 = "*"
ripemd = "*"
bs58 = "*"
serde = { version = "*", features = ["derive"] }
serde_json = "*"
chrono = "*"
