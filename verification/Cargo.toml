[package]
name = "bevy_audio_anim_demo"
version = "0.1.0"
edition = "2021"
publish = false

[dependencies]
bevy = { version = "0.19", default-features = false }
