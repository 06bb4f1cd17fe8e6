[package]
name = "clifton_config"
version = "0.1.0"
edition = "2021"
publish = false

[dependencies]
dirs = "5"
serde = { version = "1", features = ["derive"] }
url = { version = "2", features = ["serde"] }
