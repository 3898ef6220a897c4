[package]
name = "al1s"
version = "0.1.0"
edition = "2021"
publish = false

[dependencies]
sha2 = "0.10"
serde = { version = "1", features = ["derive"] }
serde_json = "1"
axum = { version = "0.7", features = ["macros"] }
tokio = { version = "1", features = ["full"] }
tower-http = { version = "0.5", features = ["fs"] }
tracing-subscriber = "0.3"
utoipa = "4"
chrono = "0.4"
jsonwebtoken = "9"
rusqlite = "0.31"
windows = { version = "0.52", features = ["Win32_Security", "Win32_Foundation"] }
wmi = "0.13"
