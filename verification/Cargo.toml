[package]
name = "sse_client"
version = "1.1.0"
edition = "2021"
publish = false

[dependencies]
url = "2"
native-tls = "0.2"
