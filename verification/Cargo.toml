[package]
name = "bn254_gadgets"
version = "0.1.0"
edition = "2021"
publish = false

[dependencies]
ark-bn254 = "0.5"
ark-ff = "0.5"
num-bigint = "0.4"
rand = "0.9"
