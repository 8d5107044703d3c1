[package]
name = "ankurah-rn-bindings"
version = "0.1.0"
edition = "2021"
publish = false

[dependencies]
dirs = "*"
tokio = { version = "*", features = ["full"] }
once_cell = "*"
tracing = "*"
tracing-subscriber = "*"
ctor = "*"
thiserror = "*"
ankurah = "*"
ankurah-storage-sled = "*"
ankurah-websocket-client = "*"
