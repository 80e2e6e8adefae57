[package]
name = "hyper_fast"
version = "0.1.0"
edition = "2021"
publish = false

[dependencies]
twoway = "0.2"
async-compression = { version = "0.4", features = ["tokio", "gzip", "brotli", "deflate"] }
tokio = { version = "1", features = ["full"] }
futures = "0.3"
hyper = { version = "0.14", features = ["full"] }
http = "0.2"
anyhow = "1"
thiserror = "1"
async-trait = "0.1"
chrono = "0.4"
humantime = "2"
serde = { version = "1", features = ["derive"] }
serde_json = "1"
bytes = "1"
tokio-util = { version = "0.7", features = ["io"] }
config = "0.13"
log4rs = "1"
log = "0.4"
libc = "0.2"
parking_lot = "0.12"
