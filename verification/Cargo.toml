[package]
name = "relay"
version = "0.1.0"
edition = "2021"
publish = false

[dependencies]
dirs = "5"
regex = "1"
glob = "0.3"
walkdir = "2"
which = "6"
serde = { version = "1", features = ["derive"] }
serde_json = "1"
tokio = { version = "1", features = ["macros", "rt-multi-thread", "sync", "time"] }
futures = "0.3"
reqwest = { version = "0.12", default-features = false, features = ["json", "stream", "rustls-tls"] }
clap = { version = "4", features = ["derive"] }
anyhow = "1"
