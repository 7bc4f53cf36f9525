[package]
name = "content_filter"
version = "0.1.0"
edition = "2021"
publish = false

[dependencies]
serde = { version = "1", features = ["derive"] }
serde_json = "1"
objc2 = "0.6"
objc2-foundation = "0.3"
objc2-network-extension = "0.3"
objc2-system-extensions = "0.3"
block2 = "0.6"
dispatch2 = "0.3"
tauri = { version = "2", default-features = false, features = ["wry"] }
