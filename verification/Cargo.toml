[package]
name = "docusaurus"
version = "0.1.0"
edition = "2021"
publish = false

[dependencies]
serde = { version = "1", features = ["derive"] }
serde_json = "1"
tempfile = "3"
thiserror = "1"
which = "6"
clap = { version = "4", features = ["derive"] }
libloading = "0.8"
napi = "2"
napi-derive = "2"
