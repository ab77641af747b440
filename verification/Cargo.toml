[package]
name = "local_relay"
version = "0.1.0"
edition = "2021"
publish = false

[dependencies]
tokio = { version = "1", features = ["rt-multi-thread", "sync", "net"] }
warp = { version = "0.3", default-features = false, features = ["websocket"] }
futures-util = { version = "0.3", default-features = false, features = ["sink", "std"] }
