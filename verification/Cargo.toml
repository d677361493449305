[package]
name = "lqip"
version = "0.1.0"
edition = "2021"
publish = false

[dependencies]
fastly = "0.9"
image = "0.24"
thumbhash = "0.1"
