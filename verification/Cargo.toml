[package]
name = "krabka_operator"
version = "0.1.0"
edition = "2021"
publish = false

[dependencies]
anyhow = "1"
axum = { version = "0.8", default-features = false, features = ["http1", "tokio"] }
k8s-openapi = { version = "0.27", features = ["v1_32"] }
kube = { version = "3.1", features = ["client", "runtime", "derive"] }
prometheus-client = "*"
refined_type = "*"
schemars = "1"
serde = { version = "1", features = ["derive"] }
serde_json = "1"
serde_yaml = "*"
tempfile = "3"
tokio = { version = "1", features = ["full"] }
toml = "*"
tracing = "0.1"
