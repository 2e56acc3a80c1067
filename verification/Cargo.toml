[package]
name = "interval_trainer"
version = "0.1.0"
edition = "2021"
publish = false

[dependencies]
rand = "0.8"
cpal = "0.15"
rodio = "0.17"
pitch-detection = "0.3"
