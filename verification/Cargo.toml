[package]
name = "claude_agent_sdk"
version = "0.1.0"
edition = "2021"
publish = false

[dependencies]
serde_json = "*"
tokio = { version = "*", features = ["full"] }
tokio-stream = "*"
futures = "*"
async-trait = "*"
which = "*"
uuid = { version = "*", features = ["v4"] }
users = "*"
