[package]
name = "lcrt"
version = "0.1.0"
edition = "2021"
publish = false

[dependencies]
gtk4 = "*"
libadwaita = { version = "*", features = ["v1_4"] }
gtk4-layer-shell = "*"
pipewire = "0.9"
rubato = "*"
hound = "3.5"
whisper-rs = "0.15"
tracing = "0.1"
tracing-subscriber = { version = "0.3", features = ["env-filter"] }
