[package]
name = "netspeed"
version = "0.1.0"
edition = "2021"
publish = false

[dependencies]
anyhow = "1"
byteorder = "1"
chrono = "0.4"
clap = "2"
env_logger = "0.7"
log = "0.4"
