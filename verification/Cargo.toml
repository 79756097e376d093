[package]
name = "polymarket_arb"
version = "0.1.0"
edition = "2021"
publish = false

[dependencies]
anyhow = "1"
chrono = { version = "0.4", default-features = false, features = ["std", "clock"] }
clap = { version = "4", default-features = false, features = ["std", "derive", "help"] }
futures-util = { version = "0.3", default-features = false, features = ["std", "sink"] }
regex = "1"
reqwest = { version = "0.12", default-features = false, features = ["json", "native-tls"] }
rust_decimal = { version = "1", default-features = false, features = ["std"] }
serde = { version = "1", features = ["derive"] }
serde_json = "1"
tokio = { version = "1", features = ["rt-multi-thread", "macros", "net", "time", "sync", "signal", "process"] }
tokio-tungstenite = { version = "*", default-features = false, features = ["connect", "handshake", "native-tls"] }
toml = "*"
tracing = "0.1"
tracing-subscriber = { version = "0.3", default-features = false, features = ["std", "fmt", "env-filter", "json"] }
url = "2"
