[package]
name = "egui_cable"
version = "0.1.0"
edition = "2021"
publish = false

[dependencies]
egui = "*"
epaint = "*"
