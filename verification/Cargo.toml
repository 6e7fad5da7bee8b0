[package]
name = "spx-transcoder"
version = "0.1.0"
edition = "2021"
publish = false

[dependencies]
anyhow = "1"
async-nats = "*"
chrono = { version = "0.4", features = ["serde"] }
config = { version = "*", default-features = false }
core_affinity = "*"
deadpool-postgres = { version = "*", features = ["serde"] }
dotenvy = "*"
ffmpeg-sys-next = { version = "*", default-features = false, features = ["avcodec", "avformat", "swresample"] }
futures-util = "0.3"
mimalloc = { version = "*", default-features = false }
rustls = { version = "0.23", default-features = false, features = ["ring", "std", "tls12"] }
serde = { version = "1", features = ["derive"] }
serde_json = "1"
tempfile = "3"
tokio = { version = "1", features = ["full"] }
tokio-postgres = "*"
tokio-postgres-rustls = "*"
tracing = "0.1"
tracing-appender = "*"
tracing-log = "*"
tracing-subscriber = { version = "0.3", features = ["env-filter", "json"] }
uuid = { version = "1", features = ["v4"] }
