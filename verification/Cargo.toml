[package]
name = "scan_renamer"
version = "0.1.0"
edition = "2021"
publish = false

[dependencies]
axum = "0.8"
regex = "1"
serde = { version = "1", features = ["derive"] }
tera = "1"
tokio = { version = "1", features = ["macros", "rt-multi-thread", "net"] }
tower-http = { version = "0.6", features = ["trace"] }
tracing = "0.1"
tracing-subscriber = "0.3"
