[package]
name = "atlas_backend"
version = "0.1.0"
edition = "2021"
publish = false

[dependencies]
actix-cors = "=0.7.2"
actix-governor = "=0.10.0"
actix-multipart = "=0.8.5"
actix-web = { version = "=4.18.1", default-features = false, features = ["macros", "cookies", "compress-gzip", "compress-brotli"] }
argon2 = { version = "=0.5.3", features = ["std"] }
chrono = "=0.4.45"
dotenvy = "=0.15.7"
env_logger = "=0.11.11"
futures-util = "=0.3.34"
log = "=0.4.35"
reqwest = { version = "=0.12.28", default-features = false, features = ["json", "rustls-tls"] }
serde = { version = "=1.0.229", features = ["derive"] }
serde_json = "=1.0.154"
tokio = { version = "=1.54.1", features = ["macros", "rt-multi-thread", "sync", "fs"] }
uuid = { version = "=1.29.0", features = ["v4"] }
