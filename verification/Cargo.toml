[package]
name = "ludusavi_sync"
version = "0.1.0"
edition = "2021"
publish = false

[dependencies]
byte-unit = "=5.2.6"
chrono = "=0.4.45"
shlex = "=1.3.0"
fuzzy-matcher = "=0.3.7"
serde = { version = "=1.0.229", features = ["derive"] }
serde_json = "=1.0.154"
