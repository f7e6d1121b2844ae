[package]
name = "runrust"
version = "0.1.0"
edition = "2021"
publish = false

[dependencies]
actix-web = "=4.18.1"
chrono = "=0.4.45"
clap = { version = "=4.6.7", features = ["derive"] }
env_logger = "=0.11.11"
log = "=0.4.34"
mime_guess = "=2.0.5"
once_cell = "=1.21.4"
rayon = "=1.12.0"
rust-embed = { version = "=8.13.0", features = ["interpolate-folder-path"] }
rust-ini = "=0.21.3"
serde = { version = "=1.0.229", features = ["derive"] }
serde_json = "=1.0.154"
thiserror = "=2.0.21"
tokio = { version = "=1.54.1", features = ["time"] }
users = "=0.11.0"
