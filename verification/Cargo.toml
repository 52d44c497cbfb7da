[package]
name = "patch_alerts"
version = "0.1.0"
edition = "2021"
publish = false

[dependencies]
chrono = "0.4"
rand = "0.8"
serde_json = "1"
dotenv = "0.15"
reqwest = { version = "0.11", default-features = false, features = ["rustls-tls"] }
serenity = "0.11"
tokio = { version = "1", features = ["macros", "rt-multi-thread", "time"] }
