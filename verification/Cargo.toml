[package]
name = "transcoder"
version = "0.1.0"
edition = "2021"
publish = false

[dependencies]
symphonia = { version = "*", features = ["flac", "mp3"] }
mp3lame-encoder = "*"
tokio = { version = "*", features = ["rt-multi-thread", "sync", "time", "macros"] }
