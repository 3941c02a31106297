[package]
name = "frl_proxy"
version = "0.1.0"
edition = "2021"
publish = false

[dependencies]
hyper = { version = "0.14", features = ["full"] }
hyper-proxy = "0.9"
hyper-tls = "0.5"
headers = "0.3"
tokio = { version = "1", features = ["full"] }
ctrlc = "3"
