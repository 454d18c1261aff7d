[package]
name = "gateman"
version = "0.1.0"
edition = "2021"
publish = false

[dependencies]
clap = { version = "=4.6.7", features = ["derive"] }
futures-util = "=0.3.34"
git-version = "=0.3.9"
rppal = "=0.22.1"
thiserror = "=2.0.21"
tokio = { version = "=1.53.2", features = ["full"] }
tokio-stream = "=0.1.19"
warp = { version = "=0.4.3", features = ["server", "websocket"] }
