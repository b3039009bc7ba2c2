[package]
name = "egui_dataframe"
version = "0.1.0"
edition = "2021"
publish = false

[dependencies]
egui = "=0.27.2"
egui_extras = "=0.27.2"
egui_grid = "=0.5.1"
polars = { version = "=0.55.2", default-features = false }
