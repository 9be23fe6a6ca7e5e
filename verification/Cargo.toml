[package]
name = "live_captions"
version = "0.1.0"
edition = "2021"
publish = false

[dependencies]
mpeg2ts = "=0.2.0"
symphonia = { version = "=0.5.5", default-features = false, features = ["aac"] }
wait-timeout = "=0.2.1"
whisper-rs = "=0.16.0"
