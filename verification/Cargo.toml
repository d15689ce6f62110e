[package]
name = "racher"
version = "0.1.0"
edition = "2021"
publish = false

[dependencies]
base64 = "0.13"
chrono = "0.4"
dashmap = { version = "4", features = ["serde"] }
futures = "0.3"
rand = "0.8"
reqwest = { version = "0.11", default-features = false, features = ["json", "gzip"] }
serde = { version = "1", features = ["derive"] }
serde_json = "1"
serde-value = "0.7"
sha3 = "0.9"
structopt = "0.3"
tokio = { version = "1", features = ["full"] }
tower = { version = "0.4", features = ["retry", "util", "limit", "timeout"] }
tracing = "0.1"
tracing-subscriber = { version = "0.2", features = ["json"] }
url = { version = "2", features = ["serde"] }
warp = { version = "0.3", features = ["compression"] }
