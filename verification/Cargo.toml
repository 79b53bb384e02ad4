[package]
name = "auth_service"
version = "0.1.0"
edition = "2021"
publish = false

[dependencies]
rust-argon2 = { version = "=0.8.3", default-features = false }
base64-url = "=1.4.13"
rand = "=0.8.8"
sha2 = "=0.9.9"
serde = { version = "=1.0.229", features = ["derive"] }
serde_json = "=1.0.154"
tokio = { version = "=1.54.1", features = ["full"] }
tokio-postgres = "=0.7.18"
warp = "=0.3.7"
clap = { version = "=4.6.7", features = ["derive"] }
