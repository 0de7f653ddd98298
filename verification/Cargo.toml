[package]
name = "video_player"
version = "0.1.0"
edition = "2021"
publish = false

[dependencies]
Inflector = "0.11"
serde_json = "1"
raw-window-handle = "0.6"
