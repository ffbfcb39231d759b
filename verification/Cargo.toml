[package]
name = "gpui_component"
version = "0.1.0"
edition = "2021"
publish = false

[dependencies]
schemars = "1"
serde_json = "1"
