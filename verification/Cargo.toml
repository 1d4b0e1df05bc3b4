[package]
name = "infer_base"
version = "0.1.0"
edition = "2021"
publish = false

[dependencies]
ascent = "=0.8.1"
boxcar = "=0.1.0"

[dev-dependencies]
petgraph = "=0.8.3"
