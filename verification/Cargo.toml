[package]
name = "vdm"
version = "0.5.0"
edition = "2021"
publish = false

[dependencies]
reqwest = { version = "0.12", default-features = false }
tokio = { version = "1", features = ["full"] }
rusqlite = { version = "0.32", features = ["bundled"] }
serde = { version = "1", features = ["derive"] }
serde_json = "1"
rand = "0.8"
anyhow = "1"
bytes = "1"
urlencoding = "2"
dirs = "5"
