[package]
name = "georef"
version = "0.1.0"
edition = "2021"
publish = false

[dependencies]
utm = "*"
toml = "*"
serde = { version = "*", features = ["derive"] }
