[package]
name = "audio_relay"
version = "0.1.0"
edition = "2021"
publish = false

[dependencies]
cpal = "0.15"
dasp_ring_buffer = "0.11"
dasp_sample = "0.11"
log = "0.4"
simple_logger = "*"
