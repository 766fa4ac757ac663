[package]
name = "opengl_renderer"
version = "0.1.0"
edition = "2021"
publish = false

[dependencies]
beryllium = "=0.2.1"
bytemuck = "=1.25.2"
cgmath = "=0.18.0"
colored = "=3.1.1"
cstr = "=0.2.12"
gl33 = "=0.2.1"
glam = "=0.34.1"
stb_image = "=0.3.0"
tobj = "=4.0.5"
