[package]
name = "rhino_io"
version = "0.1.0"
edition = "2021"
publish = false

[dependencies]
axum = { version = "*", features = ["ws"] }
futures = "*"
log = "*"
rppal = "*"
serde = { version = "*", features = ["derive"] }
serde_json = "*"
tokio = { version = "*", features = ["rt-multi-thread", "macros", "sync", "time", "net"] }
tower-http = { version = "*", features = ["fs"] }
tracing-subscriber = { version = "*", features = ["env-filter"] }
