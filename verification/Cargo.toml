[package]
name = "safe_vex"
version = "0.1.0"
edition = "2021"
publish = false

[dependencies]
vex-rt = "*"
libc = "*"
newlib-alloc = "*"
byte-strings = "*"
bindgen = "*"
zip-extensions = "*"
