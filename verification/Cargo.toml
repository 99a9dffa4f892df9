[package]
name = "metrics_lib"
version = "0.1.0"
edition = "2021"
publish = false

[dependencies]
regex = "=1.13.1"
serde = { version = "=1.0.229", features = ["derive"] }
serde_yaml = "=0.8.26"
structopt = "=0.3.26"
toml = "=0.5.11"
