[package]
name = "bevy_mod_dynamicaudio"
version = "0.1.0"
edition = "2021"
publish = false

[dependencies]
rodio = { version = "0.17", default-features = false }
cpal = "0.15"
fundsp = { version = "0.16", default-features = false }
parking_lot = "0.12"
