[package]
name = "ktra"
version = "0.1.0"
edition = "2021"
publish = false

[dependencies]
semver = "1"
url = "2"
serde_json = "1"
serde = { version = "1", features = ["derive"] }
async-trait = "0.1"
tokio = { version = "1", features = ["fs", "io-util", "sync"] }
warp = { version = "0.3", default-features = false }
reqwest = { version = "0.11", default-features = false, features = ["json", "rustls-tls"] }
