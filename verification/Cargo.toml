[package]
name = "kube_wasi"
version = "0.1.0"
edition = "2021"
publish = false

[dependencies]
bytes = "=1.12.1"
dashmap = "=6.2.1"
either = "=1.19.0"
futures = "=0.3.34"
jiff = "=0.2.39"
k8s-openapi = { version = "=0.29.0", features = ["latest"] }
kube-core = { version = "=5.0.0", features = ["jsonpatch"] }
serde = { version = "=1.0.229", features = ["derive"] }
serde_json = "=1.0.154"
tokio = { version = "=1.54.1", features = ["sync"] }
tokio-stream = "=0.1.19"
tracing = "=0.1.44"
