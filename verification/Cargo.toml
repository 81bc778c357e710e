[package]
name = "rusty_pomodoro"
version = "0.1.0"
edition = "2021"
publish = false

[dependencies]
chrono = "*"
crossterm = "*"
serde_yaml = "*"
