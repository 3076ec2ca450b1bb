[package]
name = "kvdump"
version = "0.1.0"
edition = "2021"
publish = false

[dependencies]
blake3 = { version = "=1.8.7", default-features = false, features = ["pure"] }
tokio = { version = "=1.54.1", default-features = false, features = ["sync"] }
blocking = "=1.7.0"
