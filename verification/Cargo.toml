[package]
name = "msoxide"
version = "0.1.0"
edition = "2021"
publish = false

[dependencies]
clap = { version = "=4.6.7", features = ["derive"] }
crossterm = "=0.29.0"
ratatui = "=0.30.2"
rubbl_casatables = "=0.9.0"
rubbl_core = "=0.5.1"
