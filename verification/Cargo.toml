[package]
name = "wa_transport"
version = "0.1.0"
edition = "2021"
publish = false

[dependencies]
aes-gcm = "*"
hkdf = "*"
serde = { version = "*", features = ["derive"] }
serde_json = "*"
sha2 = "*"
time = "*"
x25519-dalek = { version = "*", features = ["static_secrets"] }
