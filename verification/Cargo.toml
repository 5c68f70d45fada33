[package]
name = "searchspot"
version = "0.1.0"
edition = "2021"
publish = false

[dependencies]
chrono = "*"
oath = "*"
serde = { version = "*", features = ["derive"] }
serde_json = "*"
toml = "*"
