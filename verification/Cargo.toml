[package]
name = "auth_proxy"
version = "0.1.0"
edition = "2021"
publish = false

[dependencies]
json = "0.12"
url = "2"
hyper = { version = "0.14", features = ["client", "http1", "server", "tcp"] }
tokio = { version = "1", features = ["macros", "rt"] }
