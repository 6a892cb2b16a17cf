[package]
name = "cargo_auto_github_lib"
version = "1.1.5"
edition = "2021"
publish = false

[dependencies]
aes-gcm = "=0.10.3"
secrecy = "=0.8.0"
serde_json = "=1.0.154"
url = "=2.5.8"
camino = "=1.2.6"
cargo_toml = "=0.20.5"
reqwest = { version = "=0.12.28", features = ["blocking", "stream"] }
tokio = { version = "=1.54.1", features = ["rt", "rt-multi-thread", "fs"] }
tokio-util = { version = "=0.7.20", features = ["codec"] }
inquire = "=0.7.5"
cargo_auto_lib = "=2.4.8"
