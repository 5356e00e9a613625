[package]
name = "spacemolt_viewer"
version = "0.1.0"
edition = "2021"
publish = false

[dependencies]
serde = { version = "1", features = ["derive"] }
serde_json = "1"
iota_stronghold = "2"
iota-crypto = { version = "0.23", features = ["blake2b"] }
zeroize = "1"
thiserror = "2"
tokio = { version = "1", features = ["rt-multi-thread", "macros", "sync", "time", "fs"] }
tokio-tungstenite = { version = "*", features = ["rustls-tls-webpki-roots"] }
futures-util = "0.3"
rmcp = { version = "*", features = ["client", "transport-streamable-http-client-reqwest"] }
tracing = "0.1"
tracing-subscriber = { version = "0.3", features = ["env-filter"] }
dirs-next = "2"
