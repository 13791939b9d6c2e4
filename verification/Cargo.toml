[package]
name = "launch_session"
version = "0.1.0"
edition = "2021"
publish = false

[dependencies]
anyhow = "=1.0.104"
env_logger = "=0.10.2"
log = "=0.4.34"
open = "=3.2.0"
serde = { version = "1", features = ["derive"] }
sysinfo = "=0.29.11"
tokio = { version = "=1.54.1", features = ["sync"] }
window-vibrancy = "=0.3.2"
