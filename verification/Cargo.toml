[package]
name = "dropbox_proxy"
version = "0.1.0"
edition = "2021"
publish = false

[dependencies]
serde = { version = "1", features = ["derive"] }
serde_json = "1"
reqwest = { version = "0.11", default-features = false, features = ["json", "stream"] }
tokio = { version = "1", features = ["rt-multi-thread", "macros", "fs"] }
axum = { version = "0.6", features = ["headers"] }
dotenvy = "0.15"
