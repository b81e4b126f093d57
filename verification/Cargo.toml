[package]
name = "tracey"
version = "0.1.0"
edition = "2021"
publish = false

[dependencies]
chrono = "0.4"
ulid = "1"
serde = { version = "1", features = ["derive"] }
serde_json = "1"
rusqlite = { version = "*", features = ["bundled"] }
log = "0.4"
env_logger = { version = "*", default-features = false }
tokio = { version = "1", features = ["rt", "time", "sync", "macros"] }
tokio-postgres = "0.7"
keyring = "3"
image = { version = "*", default-features = false, features = ["jpeg"] }
