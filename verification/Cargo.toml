[package]
name = "graffiti"
version = "0.1.0"
edition = "2021"
publish = false

[dependencies]
url = "2"
anyhow = "1"
env_logger = "0.11"
log = "0.4"
reqwest = { version = "0.12", default-features = false, features = ["json", "rustls-tls"] }
serde = { version = "1", features = ["derive"] }
serde_derive = "1"
tokio = { version = "1", features = ["full"] }
tokio-rustls = "0.26"
rustls-pemfile = "2"
