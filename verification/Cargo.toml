[package]
name = "async_uring"
version = "0.1.0"
edition = "2021"
publish = false

[dependencies]
io-uring = "*"
futures = "*"
diatomic-waker = "*"
slab = "*"
tokio = { version = "*", features = ["net", "rt", "io-util"] }
thiserror = "*"
