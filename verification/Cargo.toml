[package]
name = "hospital"
version = "0.1.0"
edition = "2021"
publish = false

[dependencies]
argon2 = "0.6"
regex = "1"
image = { version = "0.25", default-features = false, features = ["gif", "png", "jpeg"] }
rand = "0.9"
axum = { version = "0.8", features = ["multipart"] }
axum-cookie = "*"
tokio = { version = "1", features = ["full"] }
serde = { version = "1", features = ["derive"] }
toml = "*"
rusqlite = { version = "*", features = ["bundled"] }
clap = { version = "4", features = ["derive"] }
cookie = "*"
