[package]
name = "fanout"
version = "0.1.0"
edition = "2021"
publish = false

[dependencies]
anyhow = "*"
num_cpus = "*"
crossbeam-utils = "*"
parking_lot = "*"
scopeguard = "*"
sdl2 = "*"
image = "*"
euclid = "*"
