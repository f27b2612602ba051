[package]
name = "passkeep"
version = "0.1.0"
edition = "2021"
publish = false

[dependencies]
base64 = "=0.22.1"
ciborium = "=0.2.2"
getrandom = "=0.2.17"
ring = "=0.17.14"
serde = { version = "=1.0.229", features = ["derive"] }
serde_json = "=1.0.154"
thiserror = "=2.0.21"

[dev-dependencies]
p256 = "=0.13.2"
sha2 = "=0.10.9"
