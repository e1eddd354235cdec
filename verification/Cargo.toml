[package]
name = "hacl-star"
version = "0.1.0"
edition = "2021"
publish = false

[dependencies]
rand_core = "=0.6.4"
libcrux-curve25519 = "=0.0.9"
libcrux-ed25519 = "=0.0.10"
