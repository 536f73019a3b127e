[package]
name = "ars_proxy"
version = "0.1.1"
edition = "2021"
publish = false

[dependencies]
futures = "0.1"
hyper = "0.12"
hyper-tls = "0.3"
native-tls = "0.2"
tokio = "0.1"
tokio-tls = "0.2"
