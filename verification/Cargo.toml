[package]
name = "request_builder"
version = "0.1.0"
edition = "2021"
publish = false

[dependencies]
http = "1"
url = "2"
web-sys = { version = "0.3", features = ["RequestMode", "RequestCache"] }
