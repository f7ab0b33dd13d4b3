[package]
name = "bevy_godot"
version = "0.1.0"
edition = "2021"
publish = false

[dependencies]
bevy = { version = "0.9", default-features = false }
iyes_loopless = "0.9"
