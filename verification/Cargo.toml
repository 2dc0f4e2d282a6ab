[package]
name = "http_server"
version = "0.1.0"
edition = "2021"
publish = false

[dependencies]
percent-encoding = "2"
tera = "1"
clap = "3"
hyper = { version = "0.14", features = ["http1", "server", "tcp"] }
tokio = { version = "1", features = ["rt-multi-thread", "macros"] }
tower = { version = "0.4", features = ["make", "util"] }
