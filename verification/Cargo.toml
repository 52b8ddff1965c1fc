[package]
name = "koordinator"
version = "0.1.0"
edition = "2021"
publish = false

[dependencies]
duration-str = "=0.21.0"
k8s-openapi = { version = "=0.18.0", features = ["v1_26"] }
kube = { version = "=0.84.0", default-features = false, features = ["client", "runtime", "rustls-tls"] }
libc = "=0.2.191"
serde = { version = "1", features = ["derive"] }
serde_json = "1"
tokio = { version = "1", features = ["fs", "macros", "process", "rt", "signal", "sync", "time"] }
tokio-stream = "0.1"
tracing = "0.1"
tracing-subscriber = { version = "0.3", features = ["json"] }
