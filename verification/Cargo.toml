[package]
name = "gtk_glium_adapter"
version = "0.1.0"
edition = "2021"
publish = false

[dependencies]
gl_loader = "*"
glium = "*"
gtk4 = "*"
