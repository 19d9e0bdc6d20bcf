[package]
name = "phone_agent"
version = "0.1.0"
edition = "2021"
publish = false

[dependencies]
ab_glyph = "0.2"
anyhow = "=1.0.104"
base64 = "=0.22.1"
chrono = "=0.4.45"
directories = "=5.0.1"
dotenvy = "=0.15.7"
image = { version = "=0.25.10", default-features = false, features = ["png"] }
imageproc = { version = "0.25", default-features = false }
regex = "=1.13.1"
reqwest = { version = "=0.12.28", default-features = false, features = ["json", "rustls-tls"] }
serde = { version = "=1.0.229", features = ["derive"] }
serde_json = "=1.0.154"
thiserror = "=1.0.69"
tokio = { version = "=1.54.1", features = ["macros", "rt-multi-thread", "sync", "time"] }
tracing = "=0.1.44"
tracing-subscriber = "=0.3.23"
