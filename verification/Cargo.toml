[package]
name = "hyper_server"
version = "0.7.0"
edition = "2021"
publish = false

[dependencies]
socket2 = { version = "0.5", features = ["all"] }
rustls-pemfile = "2"
rustls-pki-types = { version = "1", features = ["std"] }
tokio = { version = "1", features = ["full"] }
tokio-stream = { version = "0.1", features = ["net"] }
tokio-rustls = { version = "0.26", default-features = false, features = ["ring", "logging", "tls12"] }
rustls = { version = "0.23", default-features = false, features = ["ring", "std", "logging", "tls12"] }
hyper = { version = "1", features = ["server", "http1", "http2"] }
hyper-util = { version = "0.1", features = ["server-auto", "server", "tokio", "http1", "http2", "service"] }
http = "1"
http-body = "1"
bytes = "1"
futures = "0.3"
futures-util = "0.3"
async-stream = "0.3"
pin-project = "1"
pin-project-lite = "0.2"
tower-service = "0.3"
tracing = "0.1"
log = "0.4"
openssl = "0.10"
tokio-openssl = "0.6"
