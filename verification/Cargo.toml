[package]
name = "photo_frame"
version = "0.1.0"
edition = "2021"
publish = false

[dependencies]
image = { version = "0.25", default-features = false, features = ["jpeg", "png"] }
url = "2"
anyhow = "1"
serde = { version = "1", features = ["derive"] }
serde_json = "1"
tungstenite = "*"
reqwest = { version = "0.12", default-features = false, features = ["blocking"] }
rand = "0.8"
log = "0.4"
