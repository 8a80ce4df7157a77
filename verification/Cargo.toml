[package]
name = "flicker"
version = "0.1.0"
edition = "2021"
publish = false

[dependencies]
chrono = "*"
dirs = "*"
image = { version = "*", default-features = false, features = ["png"] }
mime_guess = "*"
reqwest = { version = "*", default-features = false, features = ["multipart", "json"] }
screenshots = "*"
serde = { version = "*", features = ["derive"] }
serde_json = "*"
uuid = { version = "*", features = ["v4"] }
