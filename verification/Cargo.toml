[package]
name = "whisper_transcribe"
version = "0.1.0"
edition = "2021"
publish = false

[dependencies]
anyhow = "1"
arboard = { version = "3", default-features = false }
futures-util = "0.3"
reqwest = { version = "0.12", default-features = false, features = ["rustls-tls", "stream"] }
rfd = { version = "0.15", default-features = false, features = ["tokio", "xdg-portal"] }
rubato = "0.16"
symphonia = { version = "0.5", features = ["all"] }
tokio = { version = "1", features = ["rt-multi-thread"] }
whisper-rs = "0.15"
