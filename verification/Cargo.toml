[package]
name = "installer_rest"
version = "0.1.0"
edition = "2021"
publish = false

[dependencies]
hyper = "0.11"
futures = "0.1"
nfd = "*"
mime = "0.3"

[dev-dependencies]
serde_json = "1"
