[package]
name = "ds_transcriber"
version = "1.0.0"
edition = "2021"
publish = false

[dependencies]
anyhow = "1"
cpal = "0.13"
deepspeech = "0.9"
log = "0.4"
nnnoiseless = { version = "0.3", default-features = false }
