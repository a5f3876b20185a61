[package]
name = "rustylight-server"
version = "1.0.0"
edition = "2021"
publish = false

[dependencies]
rand = "0.8"
anyhow = "1"
axum = "0.7"
axum-server = { version = "0.7", features = ["tls-rustls"] }
hidapi = "2"
rcgen = "0.13"
serde = { version = "1", features = ["derive"] }
serde_json = "1"
thiserror = "1"
time = { version = "0.3", features = ["formatting"] }
tokio = { version = "1", features = ["full"] }
toml = "0.8"
tracing = "0.1"
tracing-appender = "0.2"
tracing-subscriber = { version = "0.3", features = ["env-filter"] }
utoipa = { version = "4", features = ["axum_extras"] }
utoipa-swagger-ui = { version = "7", features = ["axum"] }
