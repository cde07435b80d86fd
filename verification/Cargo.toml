[package]
name = "wifichecker"
version = "0.1.0"
edition = "2021"
publish = false

[dependencies]
anyhow = "=1.0.104"
async-channel = "=2.5.0"
cairo-rs = "=0.22.9"
chrono = { version = "=0.4.45", features = ["serde"] }
env_logger = { version = "=0.11.11", default-features = false }
gdk-pixbuf = "=0.22.0"
gtk4 = "=0.11.5"
libadwaita = { version = "=0.9.2", features = ["v1_4"] }
log = "=0.4.35"
poppler-rs = "=0.26.0"
serde = { version = "=1.0.229", features = ["derive"] }
serde_json = "=1.0.154"
smb = "=0.12.1"
tokio = { version = "=1.54.1", features = ["rt", "rt-multi-thread"] }
zbus = { version = "=5.19.0", default-features = false, features = ["blocking-api", "tokio"] }
