[package]
name = "room_relay"
version = "0.1.0"
edition = "2021"
publish = false

[dependencies]
uuid = { version = "*", features = ["v4"] }
axum = "*"
serde = { version = "*", features = ["derive"] }
serde_json = "*"
socketioxide = "*"
tokio = { version = "*", features = ["rt-multi-thread", "macros", "net", "sync"] }
tower = "*"
tower-http = { version = "*", features = ["cors"] }
tracing = "*"
tracing-subscriber = "*"
