[package]
name = "http_request_validator"
version = "0.1.0"
edition = "2021"
publish = false

[dependencies]
bytes = "1"
http = "1"
http-body = "1"
tower-service = "0.3"
tower-layer = "0.3"
pin-project-lite = "0.2"
hyper = "1"
tokio = { version = "1", features = ["rt", "macros"] }
