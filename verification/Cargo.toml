[package]
name = "mdbook_docker_run"
version = "0.1.0"
edition = "2021"
publish = false

[dependencies]
ansi-to-html = "=0.2.4"
anyhow = "=1.0.104"
bollard = "=0.21.1"
clap = { version = "=4.6.7", features = ["derive"] }
futures = "=0.3.34"
mdbook = { version = "=0.4.52", default-features = false }
num_cpus = "=1.17.0"
pulldown-cmark = "=0.13.4"
pulldown-cmark-to-cmark = "=23.0.0"
serde = { version = "=1.0.229", features = ["derive"] }
serde_json = "=1.0.151"
serde_yaml = "=0.9.34"
tokio = { version = "=1.53.2", features = ["full"] }
toml = "=0.5.11"
tracing = "=0.1.44"
tracing-subscriber = "=0.3.23"
url = "=2.5.8"
