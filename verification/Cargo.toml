[package]
name = "fswtch"
version = "0.1.0"
edition = "2021"
publish = false

[dependencies]
nnnoiseless = "=0.5.2"
rubato = "=2.0.0"
wide = "=1.7.1"
