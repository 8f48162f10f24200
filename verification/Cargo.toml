[package]
name = "smsvault"
version = "0.1.0"
edition = "2021"
publish = false

[dependencies]
aes = "=0.8.4"
base64 = "=0.22.1"
cbc = "=0.1.2"
getrandom = "=0.2.17"
serde = { version = "1", features = ["derive"] }
serde_json = "1"
