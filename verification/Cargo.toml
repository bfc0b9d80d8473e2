[package]
name = "dynmcp"
version = "0.1.0"
edition = "2021"
publish = false

[dependencies]
anyhow = "1"
axum = "=0.8.9"
chrono = "0.4"
clap = { version = "4", features = ["derive"] }
config = { version = "*", default-features = false, features = ["toml"] }
dashmap = "=6.2.1"
deadpool = "*"
etcd-client = "0.8"
futures = "0.3"
moka = { version = "0.12", features = ["future"] }
reqwest = { version = "0.12", default-features = false, features = ["json"] }
serde = { version = "1", features = ["derive"] }
serde_json = "=1.0.154"
sqlx = { version = "0.8", default-features = false, features = ["mysql", "runtime-tokio", "chrono", "derive"] }
thiserror = "*"
tokio = { version = "1", features = ["rt-multi-thread", "macros", "net", "time", "sync"] }
tokio-stream = { version = "0.1", features = ["sync", "time"] }
tracing = "0.1"
tracing-appender = "0.2"
tracing-subscriber = { version = "0.3", features = ["env-filter", "json", "fmt"] }
