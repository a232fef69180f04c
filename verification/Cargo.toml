[package]
name = "penview"
version = "0.1.0"
edition = "2021"
publish = false

[dependencies]
pulldown-cmark = "0.13"
base64 = "0.22"
mime_guess = "2"
url = "2"
resolve-path = "0.1"
serde = { version = "1", features = ["derive"] }
serde_json = "1"
tokio = { version = "1", features = ["full"] }
axum = { version = "0.8", features = ["ws"] }
notify = "8"
anyhow = "1"
