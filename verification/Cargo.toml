[package]
name = "phasma"
version = "0.1.0"
edition = "2021"
publish = false

[dependencies]
ratatui = "=0.30.2"
crossterm = "=0.29.0"
ratatui-plt = "=0.0.2"
clap = { version = "=4.6.7", features = ["derive"] }
clap_mangen = "=0.3.3"
chrono = "=0.4.45"
toml = "*"
