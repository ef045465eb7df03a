[package]
name = "respeaker"
version = "0.1.0"
edition = "2021"
publish = false

[dependencies]
rusb = "*"
clap = { version = "*", features = ["derive"] }
eyre = "*"
color-eyre = "*"
ctrlc = "*"
tracing = "*"
tracing-subscriber = "*"
tabled = "*"
chrono = "*"
csv = "*"
eframe = { version = "*", default-features = false, features = ["glow", "x11", "default_fonts"] }
