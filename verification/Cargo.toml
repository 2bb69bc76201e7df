[package]
name = "raxon"
version = "0.0.9"
edition = "2021"
publish = false

[dependencies]
serde = { version = "1", features = ["derive"] }
serde_json = "1"
ureq = "2"
tungstenite = "0.26"
