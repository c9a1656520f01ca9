[package]
name = "a2a_cli"
version = "0.1.0"
edition = "2021"
publish = false

[dependencies]
a2a-rs-client = "=1.0.26"
a2a-rs-core = "=1.0.26"
anyhow = "=1.0.104"
base64 = "=0.22.1"
chrono = { version = "0.4", default-features = false, features = ["clock", "std"] }
clap = { version = "4", features = ["derive", "env"] }
colored = "=3.1.1"
dirs = "=6.0.0"
futures-util = "=0.3.34"
reqwest = "=0.12.28"
serde = { version = "1", features = ["derive"] }
serde_json = "=1.0.154"
tokio = { version = "1", features = ["rt-multi-thread", "macros"] }
