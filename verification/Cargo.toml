[package]
name = "barrier_client"
version = "0.1.0"
edition = "2021"
publish = false

[dependencies]
anyhow = "1"
clap = { version = "4", features = ["derive", "env"] }
clap-serde-derive = "0.2"
clipboard = "0.5"
env_logger = "*"
glob = "0.3"
log = "0.4"
serde = { version = "1", features = ["derive"] }
serde_yaml = "0.9"
tokio = { version = "1", features = ["full"] }
tokio-serial = "5"
tokio-util = "0.7"
usb-gadget = "*"
