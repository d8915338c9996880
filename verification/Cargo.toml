[package]
name = "gotham_test"
version = "0.1.0"
edition = "2021"
publish = false

[dependencies]
hyper = { version = "0.14", features = ["client", "http1", "server", "tcp"] }
mime = "0.3"
tokio = { version = "1", default-features = false, features = ["io-util", "macros", "net", "rt-multi-thread", "time"] }
