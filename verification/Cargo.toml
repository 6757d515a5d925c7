[package]
name = "paste_read"
version = "0.1.0"
edition = "2021"
publish = false

[dependencies]
askama = "=0.12.1"
axum = "=0.7.9"
axum-extra = { version = "=0.9.6", features = ["cookie-signed"] }
serde = { version = "=1.0.229", features = ["derive"] }
tracing = "=0.1.44"
