[package]
name = "job_runner"
version = "0.1.0"
edition = "2021"
publish = false

[dependencies]
anyhow = "1.0.104"
bollard = "0.19.4"
chiral-client = "*"
dotenvy = "0.15.7"
futures-util = "0.3.34"
ratatui = "0.29.0"
sacloud-rs = "*"
serde_json = "1.0.154"
tokio = { version = "1.48.0", features = ["full"] }
