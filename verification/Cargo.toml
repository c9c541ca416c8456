[package]
name = "oqto"
version = "0.1.0"
edition = "2021"
publish = false

[dependencies]
anyhow = "1"
base64 = "*"
chrono = "*"
hex = "*"
nanoid = "*"
rand = "*"
rustix = { version = "*", features = ["process"] }
serde = { version = "1", features = ["derive"] }
serde_json = "1"
sha2 = "*"
toml = "*"
urlencoding = "*"
