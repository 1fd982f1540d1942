[package]
name = "kal"
version = "0.1.0"
edition = "2021"
publish = false

[dependencies]
anyhow = "1"
chrono = "0.4"
clap = { version = "4", features = ["derive"] }
figment = { version = "0.10", features = ["toml"] }
inquire = "*"
rusqlite = { version = "*", features = ["bundled"] }
serde = { version = "1", features = ["derive"] }
