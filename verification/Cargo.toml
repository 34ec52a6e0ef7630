[package]
name = "github_app_client"
version = "0.1.0"
edition = "2021"
publish = false

[dependencies]
anyhow = "=1.0.104"
chrono = "=0.4.45"
hex = "=0.4.3"
hmac = "=0.12.1"
jsonwebtoken = "=8.3.0"
log = "=0.4.34"
pretty_env_logger = "=0.5.0"
reqwest = { version = "=0.11.27", default-features = false, features = ["json", "rustls-tls"] }
reqwest-middleware = "=0.2.5"
reqwest-retry = "=0.2.3"
secstr = "=0.5.1"
serde = { version = "=1.0.229", features = ["derive"] }
serde_json = "=1.0.154"
serde_yaml = "0.9"
sha2 = "=0.10.9"
thiserror = "=1.0.69"
tokio = { version = "=1.54.1", features = ["macros", "rt-multi-thread", "sync", "time"] }
url = "=2.5.8"
warp = "=0.3.7"

[dev-dependencies]
rand = "=0.8.8"
rsa = "=0.9.10"
