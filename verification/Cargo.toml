[package]
name = "alsa_bridge"
version = "0.1.0"
edition = "2021"
publish = false

[dependencies]
alsa = "*"
libc = "*"
futures = "*"
tokio = { version = "*", features = ["net", "rt", "rt-multi-thread", "macros"] }
