[package]
name = "ontprox"
version = "0.1.0"
edition = "2021"
publish = false

[dependencies]
rdfoothills-mime = "*"
url = "2"
axum = "*"
tokio = { version = "1", features = ["full"] }
tokio-util = { version = "0.7", features = ["io"] }
clap = { version = "4", features = ["derive"] }
dirs = "*"
reqwest = { version = "0.12", default-features = false }
rdfoothills-conversion = "*"
rdfoothills-base = "*"
