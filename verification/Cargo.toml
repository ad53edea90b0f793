[package]
name = "mkblogs_rss"
version = "0.1.0"
edition = "2021"
publish = false

[dependencies]
rss = "*"
reqwest = { version = "*", default-features = false }
tokio = { version = "*", features = ["rt", "rt-multi-thread"] }
futures = "*"
