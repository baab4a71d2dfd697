[package]
name = "testcontainers"
version = "0.26.0"
edition = "2021"
publish = false

[dependencies]
log = "=0.4.35"
ferroid = { version = "=2.0.0", features = ["std", "alloc", "ulid", "base32"] }
url = "=2.5.8"
memchr = "=2.8.3"
tokio = { version = "=1.54.1", features = ["process", "rt", "fs", "io-util", "time"] }
tokio-tar = "=0.3.1"
bollard = "=0.19.4"
futures = "=0.3.34"
serde = { version = "=1.0.229", features = ["derive"] }
serde_json = "=1.0.154"
serde-java-properties = "*"
dirs = "=6.0.0"
uuid = { version = "=1.29.0", features = ["v4"] }
