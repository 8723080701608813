[package]
name = "rustysynth"
version = "0.1.0"
edition = "2021"
publish = false

[dependencies]
anyhow = "1"
midly = { version = "0.5", default-features = false, features = ["std"] }
