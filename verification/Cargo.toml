[package]
name = "simple_secrets"
version = "0.1.0"
edition = "2021"
publish = false

[dependencies]
argonautica = "*"
uuid = { version = "*", features = ["v5"] }
rand = "*"
etcd = "*"
iron = "*"
router = "*"
futures = "0.1"
tokio-core = "0.1"
lazy_static = "*"
error-chain = "*"
prometheus = "*"
fruently = "*"
