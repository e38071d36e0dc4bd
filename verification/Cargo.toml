[package]
name = "schotter"
version = "0.1.0"
edition = "2021"
publish = false

[dependencies]
nannou = "=0.18.1"
nannou_egui = "=0.5.0"
