[package]
name = "tailscale_localapi"
version = "0.1.0"
edition = "2021"
publish = false

[dependencies]
base64 = "0.21"
serde_json = "1"
rustls-pemfile = "1"
hyper = { version = "0.14", features = ["client", "http1"] }
http = "0.2"
tokio = { version = "1", features = ["rt", "rt-multi-thread", "net"] }
