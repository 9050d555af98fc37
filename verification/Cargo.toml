[package]
name = "peer_discovery"
version = "0.1.0"
edition = "2021"
publish = false

[dependencies]
anyhow = "*"
clap = { version = "*", features = ["derive"] }
dotenv = "*"
futures-timer = "*"
gethostname = "*"
if-addrs = "*"
log = "*"
mdns-sd = "*"
pretty_env_logger = "*"
smol = "*"
