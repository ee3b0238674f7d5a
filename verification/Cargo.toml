[package]
name = "sigbot"
version = "0.1.0"
edition = "2021"
publish = false

[dependencies]
anyhow = "1"
async-trait = "0.1"
bincode = "1.3"
camino = "1"
clap = { version = "4", features = ["cargo", "env"] }
dasp = { version = "0.11", features = ["all"] }
env_logger = "0.11"
flume = "0.11"
futures = "0.3"
jammdb = "0.11"
log = "0.4"
once_cell = "1"
qr2term = "0.3"
serde = { version = "1", features = ["derive"] }
shellexpand = "3"
tokio = { version = "1", features = ["full"] }
url = "2"
