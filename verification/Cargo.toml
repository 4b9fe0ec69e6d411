[package]
name = "steam_userdata"
version = "0.1.0"
edition = "2021"
publish = false

[dependencies]
steam_shortcuts_util = "*"
serde = { version = "1", features = ["derive"] }
