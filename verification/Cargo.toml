[package]
name = "verified_container"
version = "0.1.0"
edition = "2021"
publish = false

[dependencies]
base64 = "0.22"
chrono = "0.4"
ed25519-dalek = "2"
sha2 = "0.10"
serde = { version = "1", features = ["derive"] }
serde_json = "1"
toml = "0.8"
tar = "0.4"
flate2 = "1"
tempfile = "3"

[dev-dependencies]
hex = "0.4"
