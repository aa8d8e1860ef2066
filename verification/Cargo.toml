[package]
name = "ydav_gtk"
version = "0.1.0"
edition = "2021"
publish = false

[dependencies]
serde = { version = "1", features = ["derive"] }
serde_json = "1"
regex = "1"
sqlite = "*"
chrono = "0.4"
async-std = "1"
async-channel = "2"
gtk4 = { version = "0.9", features = ["v4_10"] }
