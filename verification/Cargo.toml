[package]
name = "playback_panel"
version = "0.1.0"
edition = "2021"
publish = false

[dependencies]
anyhow = "=1.0.104"
chrono = "=0.4.45"
image = "=0.25.10"
rspotify = { version = "=0.16.1", default-features = false, features = ["client-ureq"] }
tracing = "=0.1.44"
unicode-bidi = "=0.3.18"
viuer = "=0.11.0"
