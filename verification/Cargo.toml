[package]
name = "klog"
version = "0.1.0"
edition = "2021"
publish = false

[dependencies]
anyhow = "*"
clap = { version = "*", features = ["derive"] }
colored = "*"
comfy-table = "*"
crossterm = "*"
futures = "*"
indicatif = "*"
inquire = "*"
k8s-openapi = { version = "=0.23.0", features = ["v1_30"] }
kube = { version = "=0.96.0", features = ["client", "rustls-tls"] }
ratatui = "*"
regex = "*"
rustls = { version = "*", features = ["ring"] }
tokio = { version = "*", features = ["macros", "rt-multi-thread", "sync", "time"] }
