[package]
name = "telemetry_engine"
version = "3.0.0"
edition = "2021"
publish = false

[dependencies]
actix-web = { version = "4", default-features = false, features = ["macros"] }
chrono = { version = "0.4", default-features = false, features = ["clock", "std"] }
env_logger = "0.11"
serde = { version = "1", features = ["derive"] }
serde_json = "1"
