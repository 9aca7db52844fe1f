[package]
name = "todoproxy"
version = "0.0.1"
edition = "2021"
publish = false

[dependencies]
actix-web = "=4.18.1"
actix-ws = "=0.2.5"
clap = { version = "=4.6.7", features = ["derive"] }
deadpool = { version = "=0.9.5", default-features = false, features = ["managed"] }
deadpool-postgres = "=0.10.5"
derive_more = "=0.99.20"
env_logger = "=0.10.2"
futures-util = "=0.3.34"
log = "=0.4.34"
serde = { version = "=1.0.229", features = ["derive"] }
serde_json = "=1.0.154"
tokio = { version = "=1.54.1", features = ["full"] }
tokio-postgres = "=0.7.18"
tokio-stream = { version = "=0.1.19", features = ["sync"] }
