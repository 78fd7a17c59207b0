[package]
name = "shmup_core"
version = "0.1.0"
edition = "2021"
publish = false

[dependencies]
bevy = { version = "0.12", default-features = false }
bevy_tweening = { version = "0.9", default-features = false }
rand = "0.8"
seldom_state = { version = "0.8", default-features = false }
