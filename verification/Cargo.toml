[package]
name = "tuicher"
version = "0.1.0"
edition = "2021"
publish = false

[dependencies]
bincode = "2"
dirs = "*"
emojis = "*"
freedesktop-desktop-entry = "0.7"
notify = "*"
open = "*"
serde = { version = "1", features = ["derive"] }
sniffer-rs = "*"
tux-icons = "*"
