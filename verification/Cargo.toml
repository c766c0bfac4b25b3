[package]
name = "zipdir"
version = "0.1.0"
edition = "2021"
publish = false

[dependencies]
anyhow = "*"
async_zip = { version = "*", features = ["tokio", "deflate"] }
env_logger = "*"
futures-lite = "*"
log = "*"
tokio = { version = "*", features = ["fs", "io-util", "macros", "rt-multi-thread"] }
