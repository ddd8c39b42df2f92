[package]
name = "mdflib"
version = "0.1.0"
edition = "2021"
publish = false

[dependencies]
chrono = "*"
clap = { version = "*", features = ["derive"] }
anyhow = "*"
env_logger = "*"
log = "*"
socketcan = "*"
tokio = { version = "*", features = ["macros", "rt-multi-thread", "time"] }
futures = "*"
signal-hook = "*"
signal-hook-tokio = { version = "*", features = ["futures-v0_3"] }
