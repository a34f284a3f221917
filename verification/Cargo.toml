[package]
name = "velosi_tracker"
version = "0.1.0"
edition = "2021"
publish = false

[dependencies]
url = "2"
urlencoding = "2"
chrono = { version = "0.4", default-features = false, features = ["std", "clock"] }
serde = { version = "1", features = ["derive"] }
serde_json = "1"
uuid = { version = "1", features = ["v4"] }
tokio = { version = "1", features = ["rt-multi-thread", "time", "net", "io-util", "sync"] }
dirs = "6"
sqlx = { version = "0.8", default-features = false, features = ["sqlite", "runtime-tokio"] }
tauri = { version = "2", default-features = false, features = ["tray-icon"] }
