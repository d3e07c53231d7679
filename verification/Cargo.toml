[package]
name = "lockkey"
version = "0.1.0"
edition = "2021"
publish = false

[dependencies]
aes-gcm = "0.10"
argon2 = "0.5"
rand = "0.8"
rusqlite = { version = "*", features = ["bundled"] }
zeroize = "1"
serde = { version = "1", features = ["derive"] }
serde_json = "1"
