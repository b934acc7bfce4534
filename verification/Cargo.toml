[package]
name = "cyberconnect"
version = "0.1.0"
edition = "2021"
publish = false

[dependencies]
rand = "0.8"
chrono = { version = "0.4", default-features = false }
tui = "0.19"
crossterm = "0.25"
