[package]
name = "lumglut"
version = "0.1.0"
edition = "2021"
publish = false

[dependencies]
gl = "=0.14.0"
glutin = "=0.24.1"
luminance = "=0.39.0"
luminance-derive = "=0.5.3"
luminance-windowing = "=0.8.2"
rand = "=0.7.3"
takeable-option = "=0.5.0"
