[package]
name = "pstn_connection"
version = "0.1.0"
edition = "2021"
publish = false

[dependencies]
uuid = { version = "=1.29.0", features = ["v4"] }
kube = { version = "0.16", features = ["openapi"] }
k8s-openapi = { version = "0.5", default-features = false, features = ["v1_15"] }
swagger = "6"
chrono = "=0.4.19"
hyper = "0.11"
tokio-core = "0.1"
futures = "0.1"
serde = "1"
serde_derive = "1"
serde_json = "1"
log = "0.4"
env_logger = "0.6"
failure = "0.1"
