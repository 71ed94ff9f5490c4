[package]
name = "anterofit"
version = "0.2.0"
edition = "2021"
publish = false

[dependencies]
crossbeam = "=0.3.2"
futures = "=0.1.31"
url = "=1.7.2"
parking_lot = "=0.12.5"
threadpool = "=1.8.1"
mime = "=0.2.6"
hyper = "=0.10.16"
serde = "=1.0.229"
serde_json = "=1.0.154"
multipart = { version = "=0.13.6", default-features = false, features = ["client"] }
