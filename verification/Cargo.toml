[package]
name = "monitoring_agent"
version = "0.1.0"
edition = "2021"
publish = false

[dependencies]
openssl = "=0.10.81"
uuid = { version = "=1.27.0", features = ["v4"] }
actix-web = { version = "=3.3.3", features = ["openssl"] }
reqwest = "=0.13.5"
tokio = { version = "=1.53.2", features = ["rt-multi-thread", "macros", "time", "signal"] }
futures = "=0.3.34"
serde = { version = "=1.0.229", features = ["derive"] }
serde_json = "=1.0.151"
toml = "=1.1.6"
log = "=0.4.34"
env_logger = "=0.11.10"
psutil = "=5.4.0"
