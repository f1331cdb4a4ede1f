[package]
name = "shtml_dev"
version = "0.1.0"
edition = "2021"
publish = false

[dependencies]
chrono = "*"
clap = { version = "*", features = ["derive"] }
crossterm = "*"
notify = "*"
qrcode = "*"
ratatui = "*"
