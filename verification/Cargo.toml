[package]
name = "yagna_core"
version = "0.1.0"
edition = "2021"
publish = false

[dependencies]
bytes = "1"
url = "2"
serde_json = "1"
serde = { version = "1", features = ["derive"] }
chrono = "0.4"
futures = "0.3"
log = "0.4"
anyhow = "1"
tokio = { version = "1", features = ["full"] }
actix = "*"
actix-rt = "2"
actix-web = { version = "4", default-features = false }
nix = { version = "*", features = ["signal", "process"] }
