[package]
name = "feign"
version = "0.1.0"
edition = "2021"
publish = false

[dependencies]
serde = { version = "=1.0.229", features = ["derive"] }
serde_json = "=1.0.151"
anyhow = "=1.0.104"
reqwest = { version = "=0.13.5", default-features = false, features = ["json", "query", "form"] }
tokio = { version = "=1.53.2", features = ["rt", "rt-multi-thread", "macros"] }
