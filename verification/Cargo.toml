[package]
name = "playlist_mirror"
version = "0.1.0"
edition = "2021"
publish = false

[dependencies]
anyhow = "1"
base64 = "0.22"
clap = { version = "4", features = ["derive"] }
ctrlc = "3"
dotenvy = "0.15"
id3 = "1"
indicatif = "0.17"
reqwest = "0.12"
sanitise-file-name = "1"
serde_json = "1"
tokio = { version = "1", features = ["full"] }
tokio-cron-scheduler = { version = "*", features = ["english", "signal"] }
