[package]
name = "lazydb"
version = "0.1.0"
edition = "2021"
publish = false

[dependencies]
unicode-width = "*"
ratatui = "*"
sha2 = "*"
serde = { version = "*", features = ["derive"] }
serde_json = "*"
chrono = "*"
