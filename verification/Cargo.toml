[package]
name = "tabcast"
version = "0.1.0"
edition = "2021"
publish = false

[dependencies]
anyhow = "1"
async-channel = "2"
derive_more = { version = "1", features = ["display", "error"] }
glib = "0.20"
gstreamer-app = "0.23"
gstreamer-rtsp = "0.23"
gstreamer-rtsp-server = "0.23"
gtk4 = "0.9"
libadwaita = "0.7"
pipewire = "=0.8.0"
portal-screencast = "=0.1.0"
