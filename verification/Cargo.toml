[package]
name = "dazzle"
version = "0.1.0"
edition = "2021"
publish = false

[dependencies]
axum = "*"
base64 = "*"
dirs = "*"
serde = { version = "*", features = ["derive"] }
serde_json = "*"
tokio = { version = "*", features = ["rt-multi-thread", "net", "time", "macros", "sync", "signal"] }
tokio-util = { version = "*", features = ["rt"] }
tower-http = { version = "*", features = ["cors"] }
