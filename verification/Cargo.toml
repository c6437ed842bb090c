[package]
name = "linkerd2-proxy"
version = "0.1.0"
edition = "2021"
publish = false

[dependencies]
bytes = "=0.4.12"
futures = "=0.1.31"
http = "=0.1.21"
hyper = "=0.12.36"
indexmap = "=1.9.3"
rand = { version = "=0.7.3", features = ["small_rng"] }
tokio = "=0.1.22"
tower = "=0.1.1"
tracing = "=0.1.44"
