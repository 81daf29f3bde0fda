[package]
name = "shsqlite"
version = "0.1.0"
edition = "2021"
publish = false

[dependencies]
base64 = "=0.13.1"
chrono = "=0.4.45"
envy = "=0.4.2"
reqwest = { version = "=0.11.27", default-features = false, features = ["blocking", "json", "rustls-tls"] }
serde = { version = "=1.0.229", features = ["derive"] }
serde_json = "=1.0.154"
structopt = "=0.3.26"
sysinfo = "=0.29.11"
thiserror = "=1.0.69"
typed-builder = "=0.11.0"

[dev-dependencies]
regex = "=1.13.1"
