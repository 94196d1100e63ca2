[package]
name = "zeroclaw-gateway"
version = "0.1.0"
edition = "2021"
publish = false

[dependencies]
axum = "*"
chrono = "*"
parking_lot = "*"
serde = { version = "*", features = ["derive"] }
serde_json = "*"
tracing = "*"
uuid = { version = "*", features = ["v4"] }
