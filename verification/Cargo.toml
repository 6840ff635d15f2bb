[package]
name = "ballistics"
version = "0.1.0"
edition = "2021"
publish = false

[dependencies]
libm = "0.2"
log = "0.4"
ndarray = "0.16"
num = "0.4"
