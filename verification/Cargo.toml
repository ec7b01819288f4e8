[package]
name = "launcher_core"
version = "0.1.0"
edition = "2021"
publish = false

[dependencies]
bytes = "*"
directories = "*"
serde = { version = "*", features = ["derive"] }
serde_json = "*"
toml = "*"
