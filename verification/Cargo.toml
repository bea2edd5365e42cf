[package]
name = "controller"
version = "0.1.0"
edition = "2021"
publish = false

[dependencies]
chrono = "*"
serde = { version = "*", features = ["derive"] }
serde_json = "*"
uuid = { version = "*", features = ["v4"] }
kube = { version = "*", features = ["runtime", "derive"] }
k8s-openapi = { version = "*", features = ["latest"] }
tokio = { version = "*", features = ["macros", "rt-multi-thread"] }
reqwest = { version = "0.12", default-features = false, features = ["json", "rustls-tls"] }
serde_yaml = "*"
tracing = "*"
tracing-subscriber = "*"
anyhow = "*"
thiserror = "*"
futures = "*"
prometheus-client = "*"
notify = "*"
arc-swap = "*"
dotenv = "*"
humantime-serde = "*"
