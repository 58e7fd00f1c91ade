[package]
name = "justmine"
version = "0.1.0"
edition = "2021"
publish = false

[dependencies]
valence = "=0.2.0-alpha.1"
bevy_ecs = "0.11"
bevy_log = "0.11"
log = "0.4"
