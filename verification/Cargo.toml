[package]
name = "gradedist"
version = "0.1.0"
edition = "2021"
publish = false

[dependencies]
serde_json = "*"
scraper = "*"
bytes = "*"
csv = "*"
indicatif = "*"
clap = { version = "*", features = ["derive"] }
reqwest = { version = "*", default-features = false, features = ["multipart"] }
tokio = { version = "*", features = ["rt", "macros"] }
rusqlite = { version = "*", features = ["bundled"] }
