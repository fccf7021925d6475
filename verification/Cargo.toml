[package]
name = "flight_computer"
version = "0.1.0"
edition = "2021"
publish = false

[dependencies]
rand = "0.8"
log = "0.4"
env_logger = { version = "0.11", default-features = false }
chrono = "0.4"
thiserror = "1.0"
