[package]
name = "weather_ingest"
version = "0.1.0"
edition = "2021"
publish = false

[dependencies]
actix-web = { version = "*", default-features = false, features = ["macros"] }
reqwest = { version = "*", default-features = false }
serde = { version = "*", features = ["derive"] }
env_logger = "*"

[dev-dependencies]
serde_json = "*"
