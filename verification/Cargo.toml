[package]
name = "clean_arch"
version = "0.1.0"
edition = "2021"
publish = false

[dependencies]
anyhow = "=1.0.104"
async-trait = "0.1"
axum = "=0.8.9"
chrono = { version = "=0.4.45", default-features = false, features = ["clock", "serde"] }
diesel = { version = "=2.3.14", default-features = false, features = ["postgres_backend", "chrono", "uuid"] }
diesel-async = { version = "=0.9.2", features = ["postgres", "deadpool"] }
nanoid = "=0.5.0"
serde = { version = "1", features = ["derive"] }
serde_json = "1"
thiserror = "2"
tokio = { version = "1", features = ["rt-multi-thread", "macros", "time", "sync"] }
tokio-util = "0.7"
tracing = "0.1"
uuid = { version = "=1.27.0", features = ["v4", "serde"] }
