[package]
name = "autodevgpt"
version = "0.1.0"
edition = "2021"
publish = false

[dependencies]
crossterm = "0.26"
dotenv = "0.15"
reqwest = { version = "0.11", features = ["json"] }
serde = { version = "1", features = ["derive"] }
serde_json = "1"
