[package]
name = "create_your_own_mutex"
version = "0.1.0"
edition = "2021"
publish = false

[dependencies]
anyhow = "1"
tokio = { version = "1", features = ["sync", "rt-multi-thread", "macros", "time"] }
