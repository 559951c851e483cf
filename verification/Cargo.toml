[package]
name = "ctrl_panel"
version = "0.1.0"
edition = "2021"
publish = false

[dependencies]
regex = "1"
serde = { version = "1", features = ["derive"] }
serde_json = "1"
toml = "*"
secrecy = "*"
clap = { version = "4", features = ["derive"] }
chrono = "*"
