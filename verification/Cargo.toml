[package]
name = "kristforge"
version = "0.1.0"
edition = "2021"
publish = false

[dependencies]
time = "0.1"
rand = "0.5"
ocl = "0.19"
ocl-extras = "0.1"
crossbeam-channel = "0.2"
structopt = "0.2"
indicatif = "0.10"
ascii_tree = "0.1"
