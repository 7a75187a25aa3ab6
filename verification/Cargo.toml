[package]
name = "heal_quest"
version = "0.1.0"
edition = "2021"
publish = false

[dependencies]
gdnative = "0.8"
