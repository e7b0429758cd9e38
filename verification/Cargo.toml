[package]
name = "rfastspeech"
version = "0.1.0"
edition = "2021"
publish = false

[dependencies]
hound = "*"
serde_json = "*"
safetensors = "*"
memmap2 = "*"
thiserror = "*"
enum-as-inner = "*"
log = "*"
anyhow = "*"
clap = { version = "*", features = ["derive"] }
