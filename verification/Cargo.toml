[package]
name = "aenv"
version = "0.1.0"
edition = "2021"
publish = false

[dependencies]
anyhow = "1"
confique = { version = "*", features = ["toml"] }
dashmap = "6"
flate2 = "1"
libc = "0.2"
nix = { version = "*", features = ["fs", "user"] }
reqwest = { version = "0.12", default-features = false, features = ["rustls-tls"] }
semver = "1"
serde = { version = "1", features = ["derive"] }
serde_json = "1"
tar = "0.4"
tempfile = "3"
thiserror = "*"
tokio = { version = "1", features = ["full"] }
toml = "*"
tracing = "0.1"
uuid = "1"
which = "*"
