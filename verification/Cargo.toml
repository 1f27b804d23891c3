[package]
name = "release_signatures"
version = "0.1.0"
edition = "2021"
publish = false

[dependencies]
pgp = "*"
serde_json = "1"
url = "2"
semver = "1"
anyhow = "1"
reqwest = { version = "0.12", default-features = false, features = ["gzip", "rustls-tls"] }
tokio = { version = "1", features = ["rt-multi-thread", "fs"] }
futures = "0.3"
regex = "1"
serde = { version = "1", features = ["derive"] }
serde_yaml = "0.9"

[dev-dependencies]
rand = "0.8"
