[package]
name = "youtube_bot"
version = "0.1.0"
edition = "2021"
publish = false

[dependencies]
chrono = "0.4"
diesel = { version = "2", features = ["postgres"] }
env_logger = "*"
log = "0.4"
nostr-sdk = "*"
rand = "0.8"
reqwest = "*"
rss = "*"
serde = { version = "1", features = ["derive"] }
serde_yaml = "0.9"
sonic-rs = "*"
tokio = { version = "1", features = ["macros", "rt-multi-thread", "time"] }
url = "2"
