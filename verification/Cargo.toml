[package]
name = "timeknight"
version = "0.1.0"
edition = "2021"
publish = false

[dependencies]
crossterm = "0.25"
dirs = "4"
env_logger = "0.9"
humantime = "2"
log = "0.4"
ron = "0.8"
serde = { version = "1", features = ["derive"] }
tui = "0.19"
unicode-width = "0.1"
