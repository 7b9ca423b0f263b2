[package]
name = "audio_tester_rs"
version = "0.1.0"
edition = "2021"
publish = false

[dependencies]
macroquad = "=0.4.16"
parking_lot = "=0.12.5"
log = "=0.4.35"
android_logger = "*"
