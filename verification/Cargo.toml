[package]
name = "ocean"
version = "0.1.0"
edition = "2021"
publish = false

[dependencies]
chrono = { version = "0.4", features = ["serde"] }
diesel = { version = "1.4", features = ["postgres", "chrono", "serde_json"] }
diesel_migrations = "1.4"
dirs = "*"
env_logger = "*"
futures-util = "0.3"
hyper = { version = "0.14", features = ["full"] }
lazy_static = "1"
log = "0.4"
reqwest = { version = "0.11", default-features = false, features = ["json", "blocking", "rustls-tls"] }
rustls = "0.20"
rustls-pemfile = "1"
serde = { version = "1", features = ["derive"] }
serde_json = "1"
tokio = { version = "1", features = ["full"] }
tokio-rustls = "0.23"
tokio-stream = { version = "0.1", features = ["net"] }
toml = "0.5"
url = "2"
