[package]
name = "drive_sync"
version = "0.1.0"
edition = "2021"
publish = false

[dependencies]
chrono = "*"
notify = "*"
dirs = "*"
serde = { version = "*", features = ["derive"] }
serde_json = "*"
keyring = "*"
reqwest = { version = "*", default-features = false, features = ["json"] }
log = "*"
env_logger = "*"
open = "*"
