[package]
name = "sentiric-sip-registrar-service"
version = "0.1.0"
edition = "2021"
publish = false

[dependencies]
anyhow = "=1.0.104"
dotenvy = "=0.15.7"
redis = { version = "=0.27.6", features = ["tokio-comp", "connection-manager"] }
serde_json = "=1.0.154"
thiserror = "=1.0.69"
tokio = { version = "=1.54.1", features = ["rt-multi-thread", "macros", "signal", "time", "sync", "fs"] }
tonic = { version = "=0.12.3", features = ["tls"] }
tracing = "=0.1.44"
tracing-subscriber = { version = "=0.3.23", features = ["env-filter", "fmt", "json"] }
