[package]
name = "synthwave"
version = "0.1.0"
edition = "2021"
publish = false

[dependencies]
apodize = "1"
cpal = "0.15"
dirs = "5"
reqwest = { version = "0.12", features = ["json"] }
ringbuf = "0.4"
rustfft = "6"
serde = { version = "1", features = ["derive"] }
serde_json = "1"
symphonia = "0.5"
