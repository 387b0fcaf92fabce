[package]
name = "age-credentials"
version = "1.0.0"
edition = "2021"
publish = false

[dependencies]
librage = "=1.1.0"
age = "=0.12.1"
bech32 = "=0.11.1"
x25519-dalek = "=2.0.1"
sha2 = "=0.11.1"
chrono = "=0.4.45"
zeroize = "=1.9.1"
serde = { version = "=1.0.229", features = ["derive"] }
serde_json = "=1.0.154"
thiserror = "=2.0.21"
toml = "=1.2.1"

[dev-dependencies]
tempfile = "=3.27.0"
