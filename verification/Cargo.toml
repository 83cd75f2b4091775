[package]
name = "pet_feeder"
version = "0.1.0"
edition = "2021"

[dependencies]
chrono = "0.4"
rppal = "*"
serde = { version = "1", features = ["derive"] }
serde_json = "1"
