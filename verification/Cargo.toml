[package]
name = "k8s-secret-check"
version = "0.1.0"
edition = "2021"
publish = false

[dependencies]
yaml-rust = "=0.4.5"
serde_json = "=1.0.154"
serde = { version = "=1.0.229", features = ["derive"] }
futures = "=0.3.34"
tokio = { version = "=1.54.1", features = ["macros", "rt", "signal", "time"] }
reqwest = { version = "=0.13.5", features = ["json"] }
kube-client = { version = "=4.2.0", features = ["rustls-tls"] }
k8s-openapi = { version = "=0.28.0", features = ["latest"] }
