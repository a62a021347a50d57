[package]
name = "maschine"
version = "0.1.0"
edition = "2021"
publish = false

[dependencies]
tinyosc = "=0.0.3"
hsl = "=0.1.1"
nix = { version = "=0.31.3", features = ["fs", "poll"] }
