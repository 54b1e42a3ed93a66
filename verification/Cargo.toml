[package]
name = "wally"
version = "0.1.0"
edition = "2021"
publish = false

[dependencies]
chrono = "*"
serde = { version = "*", features = ["derive"] }
serde_json = "*"
dirs = "*"
open = "*"
reqwest = { version = "*", default-features = false, features = ["json", "rustls-tls"] }
tokio = { version = "*", features = ["rt-multi-thread", "time", "macros"] }
