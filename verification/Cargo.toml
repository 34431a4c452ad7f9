[package]
name = "error_envelope"
version = "0.1.0"
edition = "2021"
publish = false

[dependencies]
anyhow = "*"
axum = "*"
serde = "*"
serde_json = "*"
