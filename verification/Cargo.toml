[package]
name = "teleop_core"
version = "0.1.0"
edition = "2021"
publish = false

[dependencies]
clap = { version = "4", features = ["derive"] }
eyre = "0.6"
rustypot = "=0.6.0"
serialport = { version = "4", default-features = false }
