[package]
name = "mz_rocksdb"
version = "0.1.0"
edition = "2021"
publish = false

[dependencies]
bincode = "=1.3.3"
rocksdb = { version = "=0.21.0", default-features = false, features = ["snappy"] }
serde = { version = "=1.0.229", features = ["derive"] }
thiserror = "=1.0.69"
tokio = { version = "=1.54.1", features = ["rt", "sync"] }
