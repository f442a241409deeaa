[package]
name = "stream_bus"
version = "0.1.0"
edition = "2021"
publish = false

[dependencies]
anyhow = "=1.0.104"
axum = "0.6"
base64 = "=0.21.7"
chrono = "=0.4.45"
obws = "=0.11.5"
rand = "=0.8.8"
regex = "=1.13.1"
reqwest = { version = "=0.11.27", default-features = false, features = ["json", "rustls-tls"] }
serde = { version = "=1.0.229", features = ["derive"] }
serde_json = "=1.0.154"
sqlx = { version = "=0.7.4", default-features = false, features = ["runtime-tokio", "postgres", "uuid"] }
tokio = { version = "=1.54.1", features = ["rt-multi-thread", "macros", "sync", "time", "fs", "process", "signal"] }
twitch-irc = { version = "=5.0.1", default-features = false, features = ["transport-tcp", "transport-tcp-rustls-webpki-roots"] }
uuid = "=1.29.0"
