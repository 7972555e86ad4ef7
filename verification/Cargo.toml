[package]
name = "thunder_net"
version = "0.1.0"
edition = "2021"
publish = false

[dependencies]
anyhow = "1"
bitcoin = "0.32"
clap = { version = "4", features = ["derive"] }
fallible-iterator = "0.3"
futures = "0.3"
heed = { version = "0.22", features = ["serde-bincode"] }
http = "1"
jsonrpsee = { version = "0.25", features = ["http-client"] }
parking_lot = "0.12"
quinn = "0.11"
rcgen = "0.13"
rustls = { version = "0.23", default-features = false, features = ["ring", "std"] }
serde = { version = "1", features = ["derive"] }
serde_json = { version = "1", features = ["preserve_order", "raw_value"] }
serde_path_to_error = "0.1"
sneed = "*"
tokio = { version = "1", features = ["macros", "net", "rt", "sync", "time"] }
tokio-stream = "0.1"
tracing = "0.1"
tracing-subscriber = "0.3"
url = "2"
utoipa = "5"
uuid = { version = "1", features = ["v4"] }
