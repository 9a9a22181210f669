[package]
name = "actress"
version = "0.1.0"
edition = "2021"
publish = false

[dependencies]
crossbeam = "=0.7.3"
futures-preview = "=0.3.0-alpha.19"
headers = "=0.2.3"
hyper = "=0.13.0-alpha.4"
serde = { version = "=1.0.229", features = ["derive"] }
serde_json = "=1.0.154"
tokio = "=0.2.0-alpha.6"
tokio-sync = "=0.2.0-alpha.6"
