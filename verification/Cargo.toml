[package]
name = "sbom_backend"
version = "0.1.0"
edition = "2021"
publish = false

[dependencies]
ammonia = "=4.2.4"
packageurl = "=0.7.1"
rand = "=0.9.5"
sha2 = "=0.10.9"
prost-types = "=0.14.4"
http = "=1.5.0"
serde = { version = "=1.0.229", features = ["derive"] }
serde_json = "=1.0.154"
axum = { version = "=0.8.9", features = ["multipart"] }
tokio = { version = "=1.54.1", features = ["full"] }
sqlx = { version = "=0.8.6", default-features = false, features = ["postgres", "runtime-tokio", "chrono", "json", "macros"] }
chrono = { version = "=0.4.45", features = ["serde"] }
validator = { version = "=0.20.0", features = ["derive"] }
jsonwebtoken = "=9.3.1"
fluent = "=0.17.0"
fluent-resmgr = "=0.0.8"
unic-langid = "=0.9.6"
tracing = "=0.1.44"
tracing-subscriber = "=0.3.23"
hyper = { version = "=1.12.0", features = ["client", "http1", "http2"] }
hyper-util = { version = "=0.1.21", features = ["client-legacy", "http1", "http2", "tokio"] }
http-body-util = "=0.1.5"
tower = { version = "=0.5.3", features = ["util", "load-shed", "limit", "timeout"] }
tower-http = { version = "=0.6.11", features = ["trace", "set-header", "decompression-gzip"] }
hyper-rustls = { version = "=0.27.10", default-features = false, features = ["http1", "http2", "ring", "tls12"] }
rustls = { version = "=0.23.46", default-features = false, features = ["ring", "std", "tls12"] }
rustls-pki-types = "=1.15.1"
webpki-roots = "=1.0.10"
