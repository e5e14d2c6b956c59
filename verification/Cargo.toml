[package]
name = "content_bridge"
version = "0.1.0"
edition = "2021"
publish = false

[dependencies]
rand = "0.8"
serde = { version = "1", features = ["derive"] }
serde_json = "1"
jni = "0.21"
tauri = { version = "2", default-features = false }
tauri-plugin-android-fs = { version = "*", default-features = false }
tauri-plugin-fs = { version = "2", default-features = false }
