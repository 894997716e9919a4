[package]
name = "webhook_composer"
version = "0.1.0"
edition = "2021"
publish = false

[dependencies]
reqwest = "=0.12.28"
tokio = { version = "=1.53.2", features = ["rt", "rt-multi-thread", "macros"] }
weboxide = "=0.1.4"
