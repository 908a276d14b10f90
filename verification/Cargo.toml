[package]
name = "temp_monitor"
version = "0.1.0"
edition = "2021"
publish = false

[dependencies]
chrono = "0.4"
btleplug = "0.11"
tokio = { version = "1", features = ["rt-multi-thread", "time"] }
futures = "0.3"
serde = { version = "1", features = ["derive"] }
serde_json = "1"
