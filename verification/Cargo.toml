[package]
name = "pwr_notify"
version = "0.1.0"
edition = "2021"
publish = false

[dependencies]
clap = { version = "*", features = ["derive"] }
notify-rust = "*"
