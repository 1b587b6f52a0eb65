[package]
name = "discorss"
version = "0.1.0"
edition = "2021"
publish = false

[dependencies]
url = "=2.5.8"
feed-rs = "=3.0.0"
opml = "=1.1.6"
pickledb = "=0.5.1"
serde = { version = "=1.0.229", features = ["derive"] }
serenity = "=0.12.5"
tokio = { version = "=1.54.1", features = ["macros", "rt-multi-thread"] }
reqwest = { version = "=0.12.28", default-features = false, features = ["rustls-tls"] }
dotenvy = "=0.15.7"
tracing = "=0.1.44"
tracing-appender = "=0.2.5"
tracing-subscriber = { version = "=0.3.23", features = ["env-filter"] }
secrecy = "=0.8.0"
