[package]
name = "arena_shooter"
version = "0.1.0"
edition = "2021"
publish = false

[dependencies]
bevy = { version = "=0.5.0", default-features = false, features = ["render"] }
bevy_ecs = "=0.5.0"
bevy_rapier2d = "=0.9.0"
nalgebra-macros = "=0.1.0"
rand = "=0.7.3"
