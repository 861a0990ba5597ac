[package]
name = "mplbubblegumnif"
version = "0.1.0"
edition = "2021"
publish = false

[dependencies]
base64 = "=0.22.1"
bincode = "=1.3.3"
borsh = "=0.10.4"
mpl-bubblegum = "=1.4.0"
rustler = "=0.33.0"
serde = { version = "=1.0.229", features = ["derive"] }
serde_json = { version = "=1.0.154", features = ["raw_value"] }
serde_with = "=2.3.3"
solana-sdk = "=1.18.26"
thiserror = "=1.0.69"
