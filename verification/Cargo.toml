[package]
name = "rs_life"
version = "0.1.0"
edition = "2021"
publish = false

[dependencies]
rand = "0.7"
rayon = "1"
termion = "1.5"
