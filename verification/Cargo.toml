[package]
name = "vpn_desktop"
version = "0.1.0"
edition = "2021"
publish = false

[dependencies]
anyhow = "1"
crossbeam-channel = "0.5"
dirs = "5"
keyring = { version = "3", features = ["linux-native"] }
serde = { version = "1", features = ["derive"] }
serde_json = "1"
tempfile = "3"
toml = "0.8"
uuid = { version = "1", features = ["v4"] }
