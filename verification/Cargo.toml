[package]
name = "font_binding"
version = "0.1.0"
edition = "2021"
publish = false

[dependencies]
skia-bindings = "0.62"
