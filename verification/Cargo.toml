[package]
name = "robot_arm"
version = "0.1.0"
edition = "2021"
publish = false

[dependencies]
axum = "=0.6.20"
serde = { version = "=1.0.229", features = ["derive"] }
socketioxide = { version = "=0.8.0", features = ["state"] }
tokio = { version = "=1.54.1", features = ["full"] }
tower = "=0.4.13"
tower-http = { version = "=0.4.4", features = ["cors"] }
tracing = "=0.1.44"
tracing-subscriber = "=0.3.23"
