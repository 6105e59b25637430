[package]
name = "rest_api"
version = "0.1.0"
edition = "2021"
publish = false

[dependencies]
hyper = "0.12"
hyper-router = "0.5"
serde = { version = "1.0", features = ["derive"] }
serde_json = "1.0"
slog = "2.2"
