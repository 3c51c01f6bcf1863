[package]
name = "recording_watcher"
version = "0.1.0"
edition = "2021"
publish = false

[dependencies]
pipewire = "*"
snafu = "*"
tracing = "*"
tracing-subscriber = "*"
