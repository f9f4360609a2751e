[package]
name = "qs_crypto"
version = "0.1.0"
edition = "2021"
publish = false

[dependencies]
aead = "0.5"
aes-gcm = "0.10"
anyhow = "1"
argon2 = "0.5"
axum = "0.7"
base64 = "0.21"
ed25519-dalek = { version = "2", features = ["rand_core"] }
hex = "0.4"
http = "1"
pqcrypto-dilithium = "0.5"
pqcrypto-traits = "0.3"
rand = "0.8"
rand_core = { version = "0.6", features = ["getrandom"] }
reqwest = { version = "0.12", default-features = false, features = ["json", "rustls-tls"] }
serde = { version = "1", features = ["derive"] }
serde_json = "1"
sha3 = "0.10"
tokio = { version = "1", features = ["full"] }
tower-http = { version = "0.5", features = ["cors"] }
zeroize = "1"
