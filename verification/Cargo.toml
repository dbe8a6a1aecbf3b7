[package]
name = "dockrtui"
version = "0.1.0"
edition = "2021"
publish = false

[dependencies]
anyhow = "1"
async-channel = "2"
bollard = "0.19"
chrono = "0.4"
color-eyre = "0.6"
crossterm = "0.28"
futures-lite = "2"
futures-util = "0.3"
libc = "0.2"
rand = "0.9"
ratatui = "0.29"
serde_json = "1"
tokio = { version = "1", features = ["full"] }
