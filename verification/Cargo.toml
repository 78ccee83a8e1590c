[package]
name = "vibe_coding_voice_native"
version = "0.1.0"
edition = "2021"
publish = false

[dependencies]
anyhow = "1"
arboard = { version = "3", default-features = false }
base64 = "0.22"
egui = { version = "0.31", default-features = false }
global-hotkey = "0.7"
serde_json = "1"
tungstenite = { version = "0.26", features = ["rustls-tls-webpki-roots"] }
