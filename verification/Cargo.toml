[package]
name = "transform_pool"
version = "0.1.0"
edition = "2021"
publish = false

[dependencies]
async-nats = "0.33"
axum = "0.6"
clap = { version = "4", features = ["derive", "env"] }
color-eyre = "0.6"
eyre = "0.6"
futures = "0.3"
serde = { version = "1", features = ["derive"] }
serde_json = "1"
thiserror = "1"
tokio = { version = "1", features = ["rt-multi-thread", "macros", "sync"] }
tower-http = { version = "0.4", features = ["trace"] }
tracing = "0.1"
tracing-error = "0.2"
tracing-subscriber = { version = "0.3", features = ["env-filter"] }
url = "2"
uuid = { version = "1", features = ["v4"] }
