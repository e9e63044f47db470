[package]
name = "launcher_updater"
version = "0.1.0"
edition = "2021"
publish = false

[dependencies]
futures = { version = "=0.3.34", default-features = false, features = ["std"] }
http = "=1.5.0"
serde = { version = "=1.0.229", features = ["derive"] }
serde_json = "=1.0.154"
sha2 = "=0.10.9"
tauri = { version = "=2.12.5", default-features = false }
tauri-plugin-http = { version = "=2.8.3", default-features = false, features = ["json", "stream"] }
tauri-plugin-updater = { version = "=2.14.1", default-features = false }
tokio = { version = "=1.54.1", features = ["rt", "time"] }
tracing = "=0.1.44"
url = "=2.5.8"
