[package]
name = "rnotify"
version = "0.1.0"
edition = "2021"
publish = false

[dependencies]
hostname = "=0.4.2"
chrono = "=0.4.45"
serde = { version = "=1.0.229", features = ["derive"] }
serde_json = "=1.0.151"
toml = "=1.1.7"
dirs = "=7.0.0"
clap = { version = "=4.6.7", features = ["derive"] }
minreq = { version = "=3.0.0", features = ["json-using-serde", "https"] }
lettre = { version = "=0.11.23", default-features = false, features = ["smtp-transport", "builder", "rustls", "ring", "webpki-roots"] }
notify-rust = "=4.18.2"
discord-webhook = "=0.1.0"
