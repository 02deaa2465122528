[package]
name = "ruffle"
version = "0.1.0"
edition = "2021"
publish = false

[dependencies]
rand = "=0.8.8"
jpeg-decoder = "=0.3.2"
serde = { version = "=1.0.229", features = ["derive"] }
csv = "=1.4.0"
anyhow = "=1.0.104"
chrono = "=0.4.45"
env_logger = "=0.11.11"
path-slash = "=0.2.1"
structopt = "=0.3.26"
tracing = "=0.1.44"
log = "=0.4.35"
