[package]
name = "rust_remote_shell"
version = "0.1.0"
edition = "2021"
publish = false

[dependencies]
clap = { version = "4", features = ["derive"] }
color-eyre = "0.6"
futures = "0.3"
rustls-pemfile = "1"
thiserror = "1"
tokio = { version = "1", features = ["full"] }
tokio-rustls = "0.24"
tokio-tungstenite = { version = "0.19", features = ["rustls-tls-webpki-roots"] }
tower = { version = "0.4", features = ["util"] }
tracing = "0.1"
tracing-subscriber = "0.3"
url = "2"
webpki-roots = "0.23"
