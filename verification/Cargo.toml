[package]
name = "xplm_egui"
version = "0.1.0"
edition = "2021"
publish = false

[dependencies]
egui = "*"
glow = "*"
gl_loader = "*"
xplm = "*"
memoffset = "*"
