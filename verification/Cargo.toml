[package]
name = "rusty_comfort"
version = "0.1.0"
edition = "2021"
publish = false

[dependencies]
cpal = "0.15"
serde = { version = "1", features = ["derive"] }
shellexpand = "3"
toml = "0.8"
