[package]
name = "gapo_gate"
version = "0.1.0"
edition = "2021"
publish = false

[dependencies]
actix-web = { version = "4", default-features = false, features = ["macros"] }
futures = "0.3"
reqwest = { version = "*", default-features = false, features = ["json", "rustls-tls"] }
serde = { version = "1", features = ["derive"] }
serde_json = "1"
sentry = { version = "*", default-features = false, features = ["backtrace", "contexts", "panic"] }
sentry-backtrace = "*"
dotenv = "*"
env_logger = "*"
log = "0.4"
r2d2_redis = "*"
