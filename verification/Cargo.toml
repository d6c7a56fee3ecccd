[package]
name = "rust-vid-streamer"
version = "0.1.0"
edition = "2021"
publish = false

[dependencies]
ctrlc = "3"
glib = "0.9"
gstreamer = "0.15"
gstreamer-rtsp = "0.15"
gstreamer-rtsp-server = "0.15"
