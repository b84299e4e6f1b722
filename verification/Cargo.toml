[package]
name = "tab_registry"
version = "0.1.0"
edition = "2021"
publish = false

[dependencies]
headless_chrome = { version = "=1.0.22", features = ["offline"] }
url = "=2.5.8"
serde_json = "=1.0.151"
uuid = { version = "=1.27.0", features = ["v4"] }
serde = { version = "=1.0.229", features = ["derive"] }
actix-web = "=4.15.0"
tokio = { version = "=1.53.2", features = ["time", "rt", "macros"] }
