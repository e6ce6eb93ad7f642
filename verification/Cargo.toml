[package]
name = "simpos"
version = "0.1.0"
edition = "2021"
publish = false

[dependencies]
serialport = { version = "4", default-features = false }
log = "0.4"
env_logger = "0.11"
