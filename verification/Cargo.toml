[package]
name = "tower_cache"
version = "0.1.0"
edition = "2021"
publish = false

[dependencies]
atomic-wait = "1"
axum = { version = "0.7", default-features = false }
bytes = "1"
dashmap = "6"
http = "1"
http-body = "1"
pin-project-lite = "0.2"
segvec = "*"
tower-layer = "0.3"
tower-service = "0.3"
