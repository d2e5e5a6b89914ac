[package]
name = "freelance_flow"
version = "0.1.0"
edition = "2021"
publish = false

[dependencies]
chrono = "0.4"
machine-uid = "*"
reqwest = { version = "0.12", default-features = false, features = ["blocking", "json", "rustls-tls"] }
rusqlite = { version = "*", features = ["bundled"] }
serde = { version = "1", features = ["derive"] }
serde_json = "1"
thiserror = "*"
