[package]
name = "chimper"
version = "0.1.0"
edition = "2021"
publish = false

[dependencies]
multicache = "*"
imagepipe = "*"
image = "*"
