[package]
name = "bzmm"
version = "0.1.0"
edition = "2021"
publish = false

[dependencies]
sha2 = "0.10"
serde = { version = "1", features = ["derive"] }
serde_json = "1"
quick-xml = { version = "*", features = ["serialize"] }
directories = "*"
zip = { version = "*", default-features = false, features = ["deflate"] }
tokio = { version = "1", features = ["fs", "sync", "rt", "macros"] }
tokio-util = "*"
tracing = "*"
tauri = { version = "2", default-features = false, features = ["wry"] }
