[package]
name = "feed_mirror"
version = "0.1.0"
edition = "2021"
publish = false

[dependencies]
anyhow = "=1.0.104"
async-channel = "=1.9.0"
chrono = "=0.4.45"
clap = { version = "=3.2.25", features = ["derive"] }
futures-util = "=0.3.34"
indicatif = "0.17"
nix = "=0.23.2"
reqwest = { version = "=0.11.27", default-features = false, features = ["json", "stream"] }
serde = { version = "=1.0.229", features = ["derive"] }
tokio = { version = "=1.54.1", features = ["rt-multi-thread", "fs", "io-util", "time"] }
tokio-stream = "=0.1.19"
url = "=2.5.8"
