[package]
name = "apca"
version = "0.1.0"
edition = "2021"
publish = false

[dependencies]
url = "2"
hyper = { version = "0.14", features = ["client", "http1", "tcp"] }
hyper-tls = "0.5"
futures = "0.3"
log = "0.4"
