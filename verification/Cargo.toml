[package]
name = "relay_tap"
version = "0.1.0"
edition = "2021"
publish = false

[dependencies]
serde_json = "1"
serde = { version = "1", features = ["derive"] }
chrono = "0.4"
thiserror = "2"
tokio = { version = "1", features = ["fs", "rt"] }
futures = "0.3"
async-stream = "0.3"
bytes = "1"
tracing = "0.1"
reqwest = { version = "0.12", default-features = false }
rusqlite = { version = "0.32", features = ["bundled"] }
tauri = { version = "2", default-features = false }
