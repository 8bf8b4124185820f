[package]
name = "grelsolar"
version = "0.1.0"
edition = "2021"
publish = false

[dependencies]
chrono = "=0.4.45"
dotenvy = "=0.15.7"
env_logger = "=0.11.11"
humantime = "=2.4.0"
log = "=0.4.34"
reqwest = { version = "=0.12.28", default-features = false, features = ["cookies"] }
serde_json = "=1.0.154"
tokio = { version = "=1.54.1", features = ["macros", "rt-multi-thread", "signal", "sync", "time"] }
tokio-retry = "=0.3.2"
tokio-util = "=0.7.20"

[dev-dependencies]
failsafe = "=1.3.0"
