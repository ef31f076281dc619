[package]
name = "egui_context"
version = "0.1.0"
edition = "2021"
publish = false

[dependencies]
epaint = "0.15"
