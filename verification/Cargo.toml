[package]
name = "music_upload"
version = "0.1.0"
edition = "2021"
publish = false

[dependencies]
uuid = { version = "*", features = ["v4"] }
rand = "*"
argon2 = "*"
serde = { version = "*", features = ["derive"] }
toml = "*"
