[package]
name = "solana_vamp"
version = "0.1.0"
edition = "2021"
publish = false

[dependencies]
solana-sdk = "=1.14.29"
ureq = "2"
serde_json = "1"
base64 = "0.22"
bincode = "1"
