[package]
name = "onemini"
version = "0.1.0"
edition = "2021"
publish = false

[dependencies]
glob = "=0.3.4"
regex = "=1.13.1"
unicode-width = "=0.2.3"
colored = "=3.1.1"
serde = { version = "=1.0.229", features = ["derive"] }
serde_json = "=1.0.154"
toml = "=1.1.8"
anyhow = "=1.0.104"
dirs = "=7.0.0"
pulldown-cmark = { version = "=0.13.6", default-features = false }
semver = "=1.0.28"
aes-gcm = "=0.10.3"
pbkdf2 = "=0.12.2"
sha2 = "=0.10.9"
getrandom = "=0.2.17"
reqwest = { version = "0.12", default-features = false, features = ["blocking", "json", "rustls-tls"] }
