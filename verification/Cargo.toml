[package]
name = "discord_bot"
version = "0.1.0"
edition = "2021"
publish = false

[dependencies]
discord = "*"
cleverbot_io = "*"
hyper = "0.10"
serde = { version = "1", features = ["derive"] }
serde_json = "1"
url = "1"
