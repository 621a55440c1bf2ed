[package]
name = "zedxa"
version = "0.1.0"
edition = "2021"
publish = false

[dependencies]
anyhow = "1.0"
chrono = "0.4"
clap = { version = "4.4", features = ["derive"] }
env_logger = "0.11"
log = "0.4"
parking_lot = "0.12"
schemars = "0.8"
serde = { version = "1.0", features = ["derive"] }
simplelog = "0.12"
smallvec = { version = "1.6", features = ["union"] }
time = "0.3"
uuid = { version = "1.1", features = ["v4"] }
