[package]
name = "meteor_dodger"
version = "0.1.0"
edition = "2021"
publish = false

[dependencies]
bevy = { version = "0.13", default-features = false }
bevy_turborand = "0.8"
