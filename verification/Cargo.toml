[package]
name = "agent_manager"
version = "0.1.0"
edition = "2021"
publish = false

[dependencies]
clap = { version = "=4.6.7", features = ["cargo"] }
daemonize = "=0.5.0"
dashmap = "=6.2.1"
log = "=0.4.34"
procfs = "=0.17.0"
rand = "=0.8.8"
reqwest = { version = "=0.12.28", default-features = false, features = ["json"] }
serde = { version = "=1.0.229", features = ["derive"] }
serde_json = "=1.0.154"
serde_yaml = "=0.9.34"
tempfile = "=3.27.0"
thiserror = "=1.0.69"
tokio = { version = "=1.54.1", features = ["full"] }
tokio-named-pipes = "*"
winapi = { version = "=0.3.9", features = ["winbase"] }
