[package]
name = "tool_provision"
version = "0.1.0"
edition = "2021"
publish = false

[dependencies]
flate2 = "1"
lzma-rs = "0.3"
serde = { version = "1", features = ["derive"] }
serde_json = "1"
tar = "0.4"
tauri = { version = "2", default-features = false }
tauri-plugin-http = { version = "2", default-features = false }
zip = { version = "*", default-features = false, features = ["deflate"] }
