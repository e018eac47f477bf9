[package]
name = "launcher_inventory"
version = "0.1.0"
edition = "2021"
publish = false

[dependencies]
serde_json = "*"
sys-info = "*"
reqwest = { version = "*", default-features = false }
