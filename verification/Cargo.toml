[package]
name = "dploy"
version = "0.1.0"
edition = "2021"
publish = false

[dependencies]
bollard = "=0.15.0"
clap = { version = "=4.6.7", features = ["derive"] }
console = "=0.15.11"
ctrlc = "=3.5.2"
dotenvy = "=0.15.7"
futures-util = "=0.3.34"
notify = "=6.1.1"
notify-debouncer-full = "=0.3.2"
serde = { version = "=1.0.229", features = ["derive"] }
tar = "0.4"
tokio = { version = "=1.54.1", features = ["full"] }
toml = "0.8"
