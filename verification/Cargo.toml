[package]
name = "gfs"
version = "0.1.0"
edition = "2021"
publish = false

[dependencies]
chrono = "*"
clap = { version = "*", features = ["derive"] }
serde = { version = "*", features = ["derive"] }
serde_json = "*"
tokio = { version = "*", features = ["rt-multi-thread", "macros"] }
etcd-rs = "*"
neo4rs = "*"
rusqlite = { version = "*", features = ["bundled"] }
log = "*"
env_logger = "*"
