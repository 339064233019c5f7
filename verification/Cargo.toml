[package]
name = "location_gate"
version = "0.1.0"
edition = "2021"
publish = false

[dependencies]
axum = "0.6"
http = "0.2"
regex = "1"
serde = { version = "1", features = ["derive"] }
serde_derive = "1"
serde_json = "1"
