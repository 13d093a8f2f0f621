[package]
name = "secure_signer"
version = "0.1.0"
edition = "2021"
publish = false

[dependencies]
aes-gcm = "0.10"
argon2 = "0.5"
base64 = "0.22"
bs58 = "0.5"
ed25519-dalek = "2"
hex = "0.4"
k256 = "0.13"
rand = "0.8"
region = "3"
serde = { version = "1", features = ["derive"] }
serde_json = "1"
sha3 = "0.10"
zeroize = "1"
