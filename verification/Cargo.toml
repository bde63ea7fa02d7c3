[package]
name = "canvas_ai"
version = "0.1.0"
edition = "2021"
publish = false

[dependencies]
urlencoding = "2"
base64 = "0.22"
image = { version = "0.25", default-features = false, features = ["jpeg", "png", "gif", "webp"] }
serde = { version = "1", features = ["derive"] }
serde_json = "1"
reqwest = { version = "0.12", default-features = false, features = ["json"] }
tokio = { version = "1", features = ["sync", "time", "rt", "macros"] }
tracing = "0.1"
uuid = { version = "1", features = ["v4"] }
async-trait = "0.1"
rusqlite = { version = "0.32", features = ["bundled"] }
tauri = { version = "2", default-features = false }
