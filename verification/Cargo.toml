[package]
name = "network-manager"
version = "0.1.0"
edition = "2021"
publish = false

[dependencies]
regex = "=1.13.1"
semver = "=1.0.28"
chrono = "=0.4.45"
serde = { version = "=1.0.229", features = ["derive"] }
toml = "=0.8.23"
serde_json = "1"
aes-gcm = "0.10"
argon2 = "0.5"
base64 = "0.22"
rand = "0.8"
sha2 = "0.10"
zeroize = "1"
