[package]
name = "alarm_clock"
version = "0.1.0"
edition = "2021"
publish = false

[dependencies]
rppal = "*"
serde = { version = "*", features = ["derive"] }
toml = "*"
