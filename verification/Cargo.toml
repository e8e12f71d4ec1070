[package]
name = "devtunnel"
version = "0.1.0"
edition = "2021"
publish = false

[dependencies]
regex = "=1.13.1"
serde = { version = "1", features = ["derive"] }
serde_json = "1"
tokio = { version = "1", features = ["process", "time", "rt"] }
url = "=2.5.8"
which = "*"
tauri = { version = "2", default-features = false }
