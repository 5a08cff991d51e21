[package]
name = "rin_tabs"
version = "0.1.0"
edition = "2021"
publish = false

[dependencies]
anyhow = "1"
log = "0.4"
once_cell = "1"
serde = { version = "1", features = ["derive"] }
tauri = { version = "2", default-features = false, features = ["wry", "unstable"] }
tauri-plugin-log = "2"
url = { version = "2", features = ["serde"] }
uuid = { version = "1", features = ["v4", "serde"] }
