[package]
name = "panorama"
version = "0.1.0"
edition = "2021"
publish = false

[dependencies]
axum = "0.7"
elasticsearch = { version = "8.15.0-alpha.1", default-features = false }
futures = "0.3"
http-body-util = "0.1"
hyper = { version = "1", features = ["client", "http1", "server"] }
hyper-util = { version = "0.1", features = ["tokio", "server-auto", "http1", "http2"] }
reqwest = { version = "0.12", default-features = false, features = ["json"] }
serde = { version = "1", features = ["derive"] }
serde_json = "1"
tokio = { version = "1", features = ["full"] }
toml = "0.8"
tower = "0.5"
