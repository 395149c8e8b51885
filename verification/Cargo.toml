[package]
name = "wordclock"
version = "0.1.0"
edition = "2021"
publish = false

[dependencies]
smart-leds = "0.3"
