[package]
name = "buzz_gateway"
version = "0.1.0"
edition = "2021"
publish = false

[dependencies]
anyhow = "1"
atomic-write-file = "0.3"
axum = { version = "0.8", default-features = false, features = ["http1", "json", "tokio"] }
dirs = "6"
hex = "0.4"
nostr = "0.44"
reqwest = { version = "0.12", default-features = false, features = ["json"] }
serde = { version = "1", features = ["derive"] }
serde_json = "1"
sha2 = "0.10"
thiserror = "2"
tokio = { version = "1", features = ["io-std", "io-util", "macros", "net", "rt", "sync", "time"] }
tracing = "0.1"
uuid = { version = "1", features = ["v4"] }
