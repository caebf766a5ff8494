[package]
name = "api"
version = "0.1.0"
edition = "2021"
publish = false

[dependencies]
axum = { version = "0.8.6", default-features = false, features = ["tokio", "http1"] }
tokio = { version = "1.47.1", features = ["macros", "rt-multi-thread", "net", "signal", "time", "sync"] }
tower = { version = "0.5.2", default-features = false, features = ["limit", "util"] }
tower-http = { version = "0.6.6", default-features = false, features = ["limit", "timeout"] }
tracing = "0.1.41"
tracing-subscriber = { version = "0.3.20", default-features = false, features = ["fmt", "json", "env-filter"] }
