[package]
name = "maintos"
version = "0.1.0"
edition = "2021"
publish = false

[dependencies]
anyhow = "*"
axum = "*"
chrono = "=0.4.45"
clap = { version = "*", features = ["derive", "env"] }
dotenvy = "*"
git2 = { version = "=0.21.0", default-features = false }
hmac = "=0.12.1"
http = "*"
jwt = "=0.16.0"
reqwest = { version = "=0.13.5", default-features = false }
serde = { version = "*", features = ["derive"] }
serde_json = "=1.0.151"
sha2 = "=0.10.9"
tokio = { version = "*", features = ["macros", "rt-multi-thread", "net", "fs"] }
tower-http = { version = "*", features = ["cors", "trace"] }
tracing = "*"
tracing-subscriber = "*"
