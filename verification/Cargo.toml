[package]
name = "k8s_discovery"
version = "0.1.0"
edition = "2021"
publish = false

[dependencies]
rand = "*"
kube = "*"
k8s-openapi = { version = "*", features = ["latest"] }
serde_yaml = "*"
tokio = { version = "*", features = ["macros", "rt-multi-thread", "sync"] }
