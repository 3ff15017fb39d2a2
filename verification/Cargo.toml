[package]
name = "ynab_api"
version = "0.1.0"
edition = "2021"
publish = false

[dependencies]
either = "1"
reqwest = { version = "0.12", features = ["json"] }
serde = { version = "1", features = ["derive"] }
serde_json = "1"
