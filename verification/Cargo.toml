[package]
name = "egui_material"
version = "0.1.0"
edition = "2021"
publish = false

[dependencies]
egui = "=0.32.3"
material-colors = "=0.4.2"
