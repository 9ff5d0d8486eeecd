[package]
name = "gl_mem_test"
version = "0.1.0"
edition = "2021"
publish = false

[dependencies]
gl = "=0.14.0"
glutin = "=0.32.3"
raw-window-handle = "=0.6.2"
sysinfo = "=0.39.6"
