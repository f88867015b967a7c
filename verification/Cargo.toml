[package]
name = "flowmon"
version = "0.1.0"
edition = "2021"
publish = false

[dependencies]
clap = { version = "=4.6.7", features = ["derive"] }
color-eyre = "=0.6.5"
crossterm = "=0.29.0"
ratatui = "=0.30.2"
serialport = { version = "=4.10.1", default-features = false }
