[package]
name = "cameleon"
version = "0.1.0"
edition = "2021"
publish = false

[dependencies]
rusb = { version = "0.9", features = ["vendored"] }
semver = "1.0"
futures = "0.3"
async-std = "1"
anyhow = "1.0"
tracing = "0.1"
roxmltree = "*"
