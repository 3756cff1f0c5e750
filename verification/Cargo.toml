[package]
name = "dirustic"
version = "0.1.0"
edition = "2021"
publish = false

[dependencies]
dotenv = "0.15"
poise = "0.6"
reqwest = { version = "0.12", default-features = false }
serenity = { version = "0.12", default-features = false, features = ["builder", "cache", "chrono", "client", "gateway", "model", "http", "utils", "rustls_backend", "voice"] }
tokio = { version = "1", features = ["macros", "rt-multi-thread", "process"] }
