[package]
name = "hoyoverse_api"
version = "1.0.0"
edition = "2021"
publish = false

[dependencies]
chrono = { version = "0.4", default-features = false, features = ["clock", "std"] }
md5 = "0.7"
hyper = { version = "1", default-features = false }
serde = { version = "1", features = ["derive"] }
serde_json = "1"
axum = "0.7"
tokio = { version = "1", features = ["macros", "rt-multi-thread", "net", "signal", "time"] }
reqwest = { version = "0.12", default-features = false, features = ["json", "rustls-tls"] }
moka = { version = "0.12", features = ["future"] }
mongodb = "3"
bson = "2"
toml = "0.8"
tracing = "0.1"
tracing-subscriber = { version = "0.3", features = ["env-filter"] }
tower = "0.4"
tower-http = { version = "0.5", features = ["cors", "compression-gzip", "trace"] }
tower_governor = "0.4"
axum-prometheus = "0.7"
prometheus = "0.13"
metrics = "0.23"
anyhow = "1"
futures = "0.3"
smart-default = "0.7"
