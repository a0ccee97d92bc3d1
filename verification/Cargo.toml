[package]
name = "suzu"
version = "0.1.0"
edition = "2021"
publish = false

[dependencies]
rustfft = "*"
kofft = "*"
ratatui = "*"
crossterm = "*"
clap = { version = "*", features = ["derive"] }
