[package]
name = "onedrive_uploader"
version = "0.1.0"
edition = "2021"
publish = false

[dependencies]
serde_json = "=1.0.151"
serde = { version = "=1.0.229", features = ["derive"] }
serde_yaml = "=0.9.34"
reqwest = { version = "=0.13.5", default-features = false, features = ["form"] }
tokio = { version = "=1.53.2", features = ["rt-multi-thread", "macros", "time"] }
colored = "=3.1.1"
indicatif = "=0.18.6"
