[package]
name = "splashboard"
version = "0.1.0"
edition = "2021"
publish = false

[dependencies]
chrono = { version = "=0.4.45", default-features = false, features = ["std", "clock"] }
regex = "=1.13.1"
sha2 = "=0.10.9"
serde = { version = "=1.0.229", features = ["derive"] }
serde_json = "=1.0.154"
toml = "=0.8.23"
reqwest = { version = "=0.12.28", default-features = false, features = ["json", "rustls-tls", "gzip"] }
tokio = { version = "=1.54.1", features = ["rt", "sync", "time", "macros"] }
async-trait = "=0.1.92"
feed-rs = "=2.4.0"
gix = { version = "=0.90.0", default-features = false, features = ["sha1", "revision", "status", "blob-diff"] }
url = "=2.5.8"
tracing = "=0.1.44"
