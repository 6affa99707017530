[package]
name = "nam_audio_pipe"
version = "0.1.0"
edition = "2021"
publish = false

[dependencies]
anyhow = "1"
log = "0.4"
pipewire = "0.9"
rtrb = "0.3"
