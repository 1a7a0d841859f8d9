[package]
name = "crypnotes"
version = "0.1.0"
edition = "2021"
publish = false

[dependencies]
argon2 = "=0.5.3"
chacha20poly1305 = "=0.10.1"
chrono = "=0.4.45"
chrono-tz = "=0.10.4"
secrecy = "=0.10.3"
serde = { version = "=1.0.229", features = ["derive"] }
serde_json = { version = "=1.0.154", features = ["preserve_order"] }
thiserror = "=2.0.21"
uniffi = "=0.32.2"
uuid = { version = "=1.29.1", features = ["v7"] }
zeroize = "=1.9.1"
