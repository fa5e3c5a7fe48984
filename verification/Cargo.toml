[package]
name = "purelang_launcher"
version = "0.1.0"
edition = "2021"
publish = false

[dependencies]
clap = { version = "=4.6.7", features = ["derive"] }
libloading = "=0.8.9"
serde_json = "=1.0.154"
thiserror = "=1.0.69"
