[package]
name = "face_attendance"
version = "0.1.0"
edition = "2021"
publish = false

[dependencies]
axum = "0.6"
chrono = "0.4"
env_logger = "0.10"
image = "0.24"
jni = "0.21"
log = "0.4"
rand = "0.8"
reqwest = { version = "0.11", features = ["json"] }
robius-authentication = "*"
rusqlite = { version = "0.29", features = ["bundled"] }
serde = { version = "1", features = ["derive"] }
serde_json = "1"
tokio = { version = "1", features = ["full"] }
