[package]
name = "embree"
version = "0.1.0"
edition = "2021"
publish = false

[dependencies]
vec_map = "0.8"
cgmath = "0.18"
log = "0.4"
memoffset = "0.9"
