[package]
name = "attest_pipeline"
version = "0.1.0"
edition = "2021"
publish = false

[dependencies]
axum = "*"
serde = { version = "*", features = ["derive"] }
serde_json = "*"
