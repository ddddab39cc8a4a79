[package]
name = "client_records"
version = "0.1.0"
edition = "2021"
publish = false

[dependencies]
dotenv = "0.15"
rusqlite = "*"
serde = { version = "1", features = ["derive"] }
serde_json = "1"
