[package]
name = "beecorr"
version = "0.1.0"
edition = "2021"
publish = false

[dependencies]
anyhow = "*"
cpal = "*"
hound = "*"
rand = "*"
