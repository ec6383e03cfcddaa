[package]
name = "backend_link"
version = "0.1.0"
edition = "2021"
publish = false

[dependencies]
egui = "0.28"
egui_plot = "0.28"
log = "0.4"
