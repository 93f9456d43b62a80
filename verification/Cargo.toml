[package]
name = "udl"
version = "0.1.0"
edition = "2021"
publish = false

[dependencies]
clap = { version = "*", features = ["derive"] }
dirs = "*"
eyre = "*"
futures = "*"
indicatif = "*"
reqwest = { version = "=0.13.5", default-features = false, features = ["json", "query", "stream"] }
serde = { version = "*", features = ["derive"] }
serde_json = "=1.0.151"
tokio = { version = "*", features = ["fs", "io-util", "macros", "rt-multi-thread"] }
tokio-util = { version = "*", features = ["io"] }
tracing = "*"
tracing-subscriber = "*"
urlencoding = "=2.1.3"
