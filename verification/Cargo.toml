[package]
name = "orchardpay"
version = "0.1.0"
edition = "2021"
publish = false

[dependencies]
aes-gcm = "0.10"
bincode = { version = "2.0.1", features = ["serde"] }
bip39 = { version = "2", features = ["rand"] }
egui = "*"
futures = "0.3"
hex = "0.4"
hkdf = "0.12"
hmac = "0.12"
serde = { version = "1", features = ["derive"] }
sha2 = "0.10"
thiserror = "2"
tracing = "0.1"
zeroize = "1"
