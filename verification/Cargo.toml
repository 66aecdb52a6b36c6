[package]
name = "db"
version = "0.1.0"
edition = "2021"
publish = false

[dependencies]
regex = "=1.13.1"
serde = { version = "=1.0.229", features = ["derive"] }
serde_json = "=1.0.154"
thiserror = "=2.0.21"
clap = { version = "=4.6.7", features = ["derive"] }
cozo = { version = "=0.7.6", default-features = false, features = ["rayon", "storage-sqlite", "storage-sqlite-src"] }
