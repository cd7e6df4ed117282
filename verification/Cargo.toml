[package]
name = "sendspin-tui"
version = "0.1.0"
edition = "2021"
publish = false

[dependencies]
uuid = { version = "1", features = ["v4"] }
sendspin = "*"
cpal = "*"
clap = { version = "4", features = ["derive"] }
color-eyre = "*"
crossterm = "*"
ratatui = "*"
tokio = { version = "1", features = ["full"] }
env_logger = "*"
log = "*"
