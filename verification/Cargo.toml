[package]
name = "fioapi"
version = "0.1.0"
edition = "2021"
publish = false

[dependencies]
chrono = { version = "0.4", default-features = false, features = ["std", "clock"] }
rust_decimal = "1"
serde_json = "1"
reqwest = { version = "0.12", default-features = false, features = ["rustls-tls"] }
thiserror = "1"
log = "0.4"
clap = { version = "4", features = ["derive", "env"] }
tokio = { version = "1", features = ["macros", "rt-multi-thread"] }
env_logger = "0.11"
dotenvy = "0.15"
