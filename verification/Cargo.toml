[package]
name = "wormhole_rss"
version = "0.1.0"
edition = "2021"
publish = false

[dependencies]
chrono = "0.4"
dirs = "5"
dotenv = "0.15"
env_logger = "0.11"
log = "0.4"
reqwest = { version = "0.12", default-features = false, features = ["rustls-tls"] }
rss = { version = "2", features = ["validation"] }
serenity = "0.12"
tokio = { version = "1", features = ["macros", "rt-multi-thread", "time"] }
