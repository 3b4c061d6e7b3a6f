[package]
name = "sparecycles"
version = "0.1.0"
edition = "2021"
publish = false

[dependencies]
reqwest = { version = "0.12", default-features = false, features = ["json"] }
serde = { version = "1", features = ["derive"] }
serde_json = "1"
sha2 = "=0.11.1"
sysinfo = { version = "0.37", default-features = false, features = ["system"] }
tar = { version = "=0.4.46", default-features = false }
tauri = { version = "2", default-features = false }
tokio = { version = "1", features = ["full"] }
