[package]
name = "auid"
version = "0.1.0"
edition = "2021"
publish = false

[dependencies]
base64 = "0.22"
bs58 = "0.5"
chrono = { version = "0.4", default-features = false, features = ["now"] }
data-encoding = "2"
faster-hex = "*"
rand = "0.8"
serde = { version = "1", features = ["derive"] }
thiserror = "1"

[dev-dependencies]
serde_json = "1"
