[package]
name = "argmin_exploring"
version = "0.1.0"
edition = "2021"
publish = false

[dependencies]
argmin = "0.8"
argmin-math = { version = "0.3", features = ["vec"] }
argmin_testfunctions = "0.1"
ndarray = "0.15"
rand = "0.8"
rand_xoshiro = "0.6"
tabled = "0.10"
