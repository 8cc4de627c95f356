[package]
name = "huber"
version = "0.1.0"
edition = "2021"
publish = false

[dependencies]
regex = "=1.13.1"
clap = "=2.34.0"
fern = "=0.6.2"
log = "=0.4.34"
fs2 = "=0.4.3"
serde = { version = "=1.0.229", features = ["derive"] }
serde_yaml = "0.8"
hubcaps = "=0.6.2"
