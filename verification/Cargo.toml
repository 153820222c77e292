[package]
name = "dachannel"
version = "0.1.0"
edition = "2021"
publish = false

[dependencies]
async-channel = "2"
axum = "0.7"
event-listener = "5"
futures = "0.3"
http-body-util = "0.1"
hyper = { version = "1", features = ["http1", "server"] }
hyper-util = { version = "0.1", features = ["tokio"] }
log = "0.4"
reqwest = { version = "0.12", default-features = false }
thiserror = "1"
tokio = { version = "1", features = ["io-util", "net", "rt", "sync"] }
tokio-util = { version = "0.7", features = ["io"] }
tower-http = { version = "0.5", features = ["cors", "limit"] }
urlencoding = "2"
