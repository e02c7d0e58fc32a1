[package]
name = "smartpaste"
version = "0.1.0"
edition = "2021"
publish = false

[dependencies]
regex = "1"
uuid = { version = "1", features = ["v4"] }
chrono = "0.4"
serde = { version = "1", features = ["derive"] }
serde_json = "1"
rusqlite = { version = "0.32", features = ["bundled"] }
base64 = "0.22"
zip = { version = "0.6", default-features = false, features = ["deflate"] }
walkdir = "2"
