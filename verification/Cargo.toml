[package]
name = "elgamal"
version = "0.1.0"
edition = "2021"
publish = false

[dependencies]
dusk-plonk = "0.3"
rand = "0.7"
thiserror = "1.0"
