[package]
name = "font_renderer"
version = "0.1.0"
edition = "2021"
publish = false

[dependencies]
app_units = "0.6"
euclid = "=0.17.3"
freetype-sys = "=0.6.0"
