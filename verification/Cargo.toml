[package]
name = "geonb"
version = "0.1.0"
edition = "2021"
publish = false

[dependencies]
anyhow = "1"
ash = "*"
clap = { version = "4", features = ["derive"] }
futures = "0.3"
geo-types = "0.7"
las = "*"
proj = "*"
reqwest = { version = "0.11", default-features = false, features = ["json", "stream"] }
serde_json = "1"
tokio = { version = "1", features = ["rt-multi-thread", "macros"] }
