[package]
name = "dot_jaeger"
version = "0.1.0"
edition = "2021"
publish = false

[dependencies]
anyhow = "1"
ureq = { version = "2", default-features = false }
