[package]
name = "breach"
version = "0.1.0"
edition = "2021"
publish = false

[dependencies]
bastion = { version = "=0.4.5", features = ["scaling", "tokio-runtime"] }
serde = { version = "=1.0.229", features = ["derive"] }
tracing = "=0.1.44"
tracing-subscriber = { version = "=0.3.23", features = ["env-filter", "fmt"] }
tokio = { version = "=1.54.1", features = ["full"] }
futures-util = "=0.3.34"
axum = "=0.6.20"
hyper = "=0.14.32"
tower = { version = "=0.4.13", features = ["util"] }
tower-http = { version = "=0.4.4", features = ["fs", "request-id", "util"] }
uuid = { version = "=1.29.0", features = ["v4"] }
dotenvy = "=0.15.7"
envy = "=0.4.2"
