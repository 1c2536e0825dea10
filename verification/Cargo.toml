[package]
name = "audio_core"
version = "0.1.0"
edition = "2021"
publish = false

[dependencies]
lewton = "0.10"
num-traits = "0.2"
log = "0.4"
serde = { version = "1", features = ["derive"] }
cpal = "*"
