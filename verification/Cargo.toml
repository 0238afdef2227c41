[package]
name = "vapr_core"
version = "0.1.0"
edition = "2021"
publish = false

[dependencies]
zip = { version = "=8.6.0", default-features = false, features = ["deflate"] }
uuid = { version = "=1.27.0", features = ["v4"] }
serde = { version = "=1.0.229", features = ["derive"] }
serde_json = "=1.0.151"
tokio = { version = "=1.53.2", features = ["rt-multi-thread", "macros", "net", "fs", "io-util", "io-std", "sync", "time"] }
tokio-tungstenite = "=0.30.0"
futures-util = "=0.3.34"
reqwest = { version = "=0.13.5", default-features = false, features = ["stream", "json"] }
dirs = "=7.0.0"
chrono = "=0.4.45"
semver = "=1.0.28"
