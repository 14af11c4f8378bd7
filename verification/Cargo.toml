[package]
name = "heat_arbiter"
version = "0.1.0"
edition = "2021"
publish = false

[dependencies]
hifitime = "*"
rumqttc = "*"
serde = { version = "*", features = ["derive"] }
serde_json = "*"
tokio = { version = "*", features = ["rt", "sync", "time", "macros"] }
