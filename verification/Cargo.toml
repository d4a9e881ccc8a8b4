[package]
name = "auto_commit"
version = "0.1.0"
edition = "2021"
publish = false

[dependencies]
dirs = "5"
git2 = { version = "0.18", default-features = false }
reqwest = { version = "0.11", default-features = false, features = ["json", "rustls-tls"] }
serde = { version = "1", features = ["derive"] }
serde_json = "1"
tokio = { version = "1", features = ["time"] }
