[package]
name = "vda5050_sim"
version = "0.1.0"
edition = "2021"
publish = false

[dependencies]
chrono = "0.4"
serde = { version = "1", features = ["derive"] }
serde_json = "1"
serde_with = "3"
tokio = { version = "1", features = ["full"] }
futures-util = "0.3"
paho-mqtt = "0.12"
rand = "0.8"
