[package]
name = "gl_wrap"
version = "0.1.0"
edition = "2021"
publish = false

[dependencies]
gl = "0.14"
glm = "*"
log = "0.4"
