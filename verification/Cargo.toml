[package]
name = "dsp_box"
version = "0.1.0"
edition = "2021"
publish = false

[dependencies]
iced = "0.3"
iced_audio = "0.8"
jack = "*"
sndfile = "*"
