[package]
name = "remote-log-tui"
version = "0.1.0"
edition = "2021"
publish = false

[dependencies]
clap = { version = "4", features = ["derive"] }
crossterm = "0.28"
futures = "0.3"
k8s-openapi = { version = "0.24", features = ["v1_32"] }
kube = { version = "0.99", features = ["client", "rustls-tls"] }
ratatui = "0.29"
tokio = { version = "1", features = ["full"] }
