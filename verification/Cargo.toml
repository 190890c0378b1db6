[package]
name = "amdb_parser"
version = "0.1.0"
edition = "2021"

[dependencies]
geo = { version = "*", default-features = false }
serde = { version = "1", features = ["derive"] }
serde_json = "1"
