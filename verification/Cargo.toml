[package]
name = "gemini_oxide"
version = "0.1.0"
edition = "2021"
publish = false

[dependencies]
serde_json = "1"
tokio = { version = "1", features = ["process", "io-util", "fs", "rt-multi-thread", "macros"] }
async-stream = "0.3"
futures-util = "0.3"
futures = "0.3"
