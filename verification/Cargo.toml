[package]
name = "comodoro"
version = "0.1.0"
edition = "2021"
publish = false

[dependencies]
anyhow = "=1.0.104"
clap = { version = "=4.6.7", features = ["derive", "env"] }
clap_complete = "=4.6.11"
clap_mangen = "=0.2.33"
convert_case = "=0.12.0"
dirs = "=7.0.0"
env_logger = "=0.11.11"
io-process = { version = "=0.0.2", features = ["std", "serde"] }
log = "=0.4.34"
notify-rust = "=4.18.2"
serde = { version = "=1.0.229", features = ["derive"] }
serde_json = "=1.0.154"
toml = "=1.1.8"
