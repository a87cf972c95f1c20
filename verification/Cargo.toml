[package]
name = "csf_retarget"
version = "0.1.0"
edition = "2021"
publish = false

[dependencies]
cgmath = "=0.18.0"
egui = "0.19"
egui_glium = "0.19"
glium = "0.32"
gstreamer-app = "=0.18.7"
gstreamer-gl = "=0.18.0"
gstreamer-gl-egl = "=0.18.0"
gstreamer-gl-wayland = "=0.18.0"
gstreamer-gl-x11 = "=0.18.0"
gstreamer-video = "=0.18.7"
image = { version = "=0.24.9", default-features = false, features = ["png"] }
