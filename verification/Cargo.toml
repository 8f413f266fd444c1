[package]
name = "driver"
version = "0.1.0"
edition = "2021"
publish = false

[dependencies]
clap = { version = "4", features = ["derive"] }
log = "0.4"
rusb = "0.9"
simple_logger = "*"
spin_sleep = "*"
