[package]
name = "pbsfm_rss_feed"
version = "0.1.0"
edition = "2021"
publish = false

[dependencies]
serde = { version = "*", features = ["derive"] }
reqwest = { version = "*", default-features = false, features = ["blocking", "json"] }
clap = { version = "*", features = ["derive"] }
argfile = "*"
rss-gen = "*"
