[package]
name = "gitradar"
version = "0.1.0"
edition = "2021"
publish = false

[dependencies]
serde = { version = "1", features = ["derive"] }
git2 = { version = "*", default-features = false }
rusqlite = { version = "*", features = ["bundled"] }
chrono = "0.4"
dirs = "*"
walkdir = "2"
