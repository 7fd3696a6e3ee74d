[package]
name = "rrm"
version = "0.1.0"
edition = "2021"
publish = false

[dependencies]
clap = { version = "4", features = ["derive"] }
directories-next = "2"
env_logger = "*"
log = "0.4"
rusqlite = "*"
thiserror = "*"
toml = "0.8"
