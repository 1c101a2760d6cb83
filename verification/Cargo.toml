[package]
name = "knowledge_indexer"
version = "0.1.0"
edition = "2021"
publish = false

[dependencies]
num_cpus = "1"
internment = { version = "0.8", features = ["arc"] }
crossbeam-channel = "0.5"
anyhow = "1"
log = "0.4"
rustc-hash = "2"
smallvec = "1"
serde = { version = "1", features = ["derive"] }
arrow = { version = "*", default-features = false }
parquet = { version = "*", default-features = false, features = ["arrow", "snap"] }
