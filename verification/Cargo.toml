[package]
name = "service_frame"
version = "0.1.0"
edition = "2021"
publish = false

[dependencies]
log = "*"
env_logger = "*"
chan = "*"
chan-signal = "*"
