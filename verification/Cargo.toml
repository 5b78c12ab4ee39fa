[package]
name = "tts_lib"
version = "0.1.0"
edition = "2021"
publish = false

[dependencies]
serde = { version = "=1.0.229", features = ["derive"] }
serde_json = "=1.0.151"
msedge-tts = "=0.4.0"
rodio = "=0.22.2"
warp = { version = "=0.4.3", features = ["server"] }
tokio = { version = "=1.53.2", features = ["rt-multi-thread", "macros", "time"] }
